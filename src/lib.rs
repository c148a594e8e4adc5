//! Serial-port session management: a registry of open ports, the commands
//! that act on it, the decisions of the background listener, and port
//! discovery, each with a machine-checked contract.

pub mod desktop_api;
pub mod device;
pub mod discovery;
pub mod error;
pub mod listener;
pub mod registry;
pub mod state;
pub mod text;
