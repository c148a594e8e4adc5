//! The capability to talk to one open serial device, and the settings it is
//! opened with. Every driver call goes through a method here; what a call
//! returns depends on the device, so each one promises only what holds of
//! every outcome.

use crate::state::{ClearBuffer, DataBits, FlowControl, Parity, StopBits};
use serialport::{
    ClearBuffer as WireClearBuffer, DataBits as WireDataBits, FlowControl as WireFlowControl,
    Parity as WireParity, StopBits as WireStopBits,
};
use vstd::prelude::*;

verus! {

/// Settings a port is opened with.
#[derive(Debug, Copy, Clone, PartialEq, Eq, Structural)]
pub struct PortSettings {
    /// Symbols per second.
    pub baud_rate: u32,
    /// Bits per character.
    pub data_bits: DataBits,
    /// Flow control mode.
    pub flow_control: FlowControl,
    /// Parity mode.
    pub parity: Parity,
    /// Stop bits.
    pub stop_bits: StopBits,
    /// Read timeout in milliseconds.
    pub timeout_ms: u64,
}

/// Read timeout of a port opened without an explicit one, in milliseconds.
pub const DEFAULT_OPEN_TIMEOUT_MS: u64 = 200;

impl PortSettings {
    /// The settings for the given values, where each absent value takes its
    /// default: 8 data bits, no flow control, no parity, one stop bit and a
    /// 200 ms timeout.
    pub fn resolve(
        baud_rate: u32,
        data_bits: Option<DataBits>,
        flow_control: Option<FlowControl>,
        parity: Option<Parity>,
        stop_bits: Option<StopBits>,
        timeout_ms: Option<u64>,
    ) -> (r: PortSettings)
        ensures
            r.baud_rate == baud_rate,
            r.data_bits == (match data_bits { Some(d) => d, None => DataBits::Eight }),
            r.flow_control == (match flow_control { Some(f) => f, None => FlowControl::Off }),
            r.parity == (match parity { Some(p) => p, None => Parity::Off }),
            r.stop_bits == (match stop_bits { Some(s) => s, None => StopBits::One }),
            r.timeout_ms == (match timeout_ms { Some(t) => t, None => DEFAULT_OPEN_TIMEOUT_MS }),
    {
        PortSettings {
            baud_rate,
            data_bits: match data_bits { Some(d) => d, None => DataBits::Eight },
            flow_control: match flow_control { Some(f) => f, None => FlowControl::Off },
            parity: match parity { Some(p) => p, None => Parity::Off },
            stop_bits: match stop_bits { Some(s) => s, None => StopBits::One },
            timeout_ms: match timeout_ms { Some(t) => t, None => DEFAULT_OPEN_TIMEOUT_MS },
        }
    }
}

/// What one read from a device produced.
pub enum ReadOutcome {
    /// Bytes arrived (possibly none).
    Data(Vec<u8>),
    /// Nothing arrived before the read timeout.
    TimedOut,
    /// The read failed, with the driver's message.
    Failed(String),
}

#[verifier::external_type_specification]
#[verifier::external_body]
pub struct ExDataBits(WireDataBits);

#[verifier::external_type_specification]
#[verifier::external_body]
pub struct ExFlowControl(WireFlowControl);

#[verifier::external_type_specification]
#[verifier::external_body]
pub struct ExParity(WireParity);

#[verifier::external_type_specification]
#[verifier::external_body]
pub struct ExStopBits(WireStopBits);

#[verifier::external_type_specification]
#[verifier::external_body]
pub struct ExClearBuffer(WireClearBuffer);

/// Relies on `WireDataBits`: the driver's value for the same count.
#[verifier::external_body]
fn driver_data_bits(d: DataBits) -> WireDataBits {
    match d {
        DataBits::Five => WireDataBits::Five,
        DataBits::Six => WireDataBits::Six,
        DataBits::Seven => WireDataBits::Seven,
        DataBits::Eight => WireDataBits::Eight,
    }
}

/// Relies on `WireFlowControl`: the driver's value for the same mode.
#[verifier::external_body]
fn driver_flow_control(f: FlowControl) -> WireFlowControl {
    match f {
        FlowControl::Off => WireFlowControl::None,
        FlowControl::Software => WireFlowControl::Software,
        FlowControl::Hardware => WireFlowControl::Hardware,
    }
}

/// Relies on `WireParity`: the driver's value for the same mode.
#[verifier::external_body]
fn driver_parity(p: Parity) -> WireParity {
    match p {
        Parity::Off => WireParity::None,
        Parity::Odd => WireParity::Odd,
        Parity::Even => WireParity::Even,
    }
}

/// Relies on `WireStopBits`: the driver's value for the same count.
#[verifier::external_body]
fn driver_stop_bits(s: StopBits) -> WireStopBits {
    match s {
        StopBits::One => WireStopBits::One,
        StopBits::Two => WireStopBits::Two,
    }
}

/// Relies on `WireClearBuffer`: the driver's value for the same buffers.
#[verifier::external_body]
fn driver_clear_buffer(c: ClearBuffer) -> WireClearBuffer {
    match c {
        ClearBuffer::Input => WireClearBuffer::Input,
        ClearBuffer::Output => WireClearBuffer::Output,
        ClearBuffer::All => WireClearBuffer::All,
    }
}

/// An open serial connection. Verus cannot describe the driver's trait
/// object, so the handle is opaque and only the methods below touch it.
#[verifier::external_body]
pub struct PortHandle {
    port: Box<dyn serialport::SerialPort>,
}

/// Relies on `serialport::SerialPortBuilder::open`: opens `path` with the
/// settings; on failure, the driver error's description.
#[verifier::external_body]
pub(crate) fn open_port(path: &str, s: &PortSettings) -> Result<PortHandle, String> {
    serialport::new(path, s.baud_rate)
        .data_bits(driver_data_bits(s.data_bits))
        .flow_control(driver_flow_control(s.flow_control))
        .parity(driver_parity(s.parity))
        .stop_bits(driver_stop_bits(s.stop_bits))
        .timeout(std::time::Duration::from_millis(s.timeout_ms))
        .open()
        .map(|port| PortHandle { port })
        .map_err(|e| e.description)
}

impl PortHandle {
    /// Relies on nothing but boxing: wraps any driver implementation (a real
    /// device or a simulated one) as a handle.
    #[verifier::external_body]
    pub fn new<P: serialport::SerialPort + 'static>(port: P) -> PortHandle {
        PortHandle { port: Box::new(port) }
    }

    /// Relies on `SerialPort::try_clone`: a second handle on the same device.
    #[verifier::external_body]
    pub(crate) fn duplicate(&self) -> Result<PortHandle, String> {
        self.port.try_clone().map(|port| PortHandle { port }).map_err(|e| e.description)
    }

    /// Relies on `std::io::Read::read`: at most `max` bytes, `TimedOut` when
    /// the driver reports a timeout, the error's message on another failure.
    #[verifier::external_body]
    pub(crate) fn read_chunk(&mut self, max: usize) -> (r: ReadOutcome)
        ensures
            r matches ReadOutcome::Data(v) ==> v@.len() <= max,
    {
        let mut buf = vec![0u8; max];
        match self.port.read(&mut buf) {
            Ok(n) => {
                buf.truncate(n);
                ReadOutcome::Data(buf)
            },
            Err(e) if e.kind() == std::io::ErrorKind::TimedOut => ReadOutcome::TimedOut,
            Err(e) => ReadOutcome::Failed(e.to_string()),
        }
    }

    /// Relies on `std::io::Write::write`: the count written, at most the
    /// length of `data`; the error's message on failure.
    #[verifier::external_body]
    pub(crate) fn write_bytes(&mut self, data: &[u8]) -> (r: Result<usize, String>)
        ensures
            r matches Ok(n) ==> n <= data@.len(),
    {
        self.port.write(data).map_err(|e| e.to_string())
    }

    /// Relies on `SerialPort::set_timeout`, with `ms` milliseconds.
    #[verifier::external_body]
    pub(crate) fn set_timeout_ms(&mut self, ms: u64) -> Result<(), String> {
        self.port.set_timeout(std::time::Duration::from_millis(ms)).map_err(|e| e.description)
    }

    /// Relies on `SerialPort::set_baud_rate`.
    #[verifier::external_body]
    pub(crate) fn set_baud_rate(&mut self, rate: u32) -> Result<(), String> {
        self.port.set_baud_rate(rate).map_err(|e| e.description)
    }

    /// Relies on `SerialPort::set_data_bits`.
    #[verifier::external_body]
    pub(crate) fn set_data_bits(&mut self, d: DataBits) -> Result<(), String> {
        self.port.set_data_bits(driver_data_bits(d)).map_err(|e| e.description)
    }

    /// Relies on `SerialPort::set_flow_control`.
    #[verifier::external_body]
    pub(crate) fn set_flow_control(&mut self, f: FlowControl) -> Result<(), String> {
        self.port.set_flow_control(driver_flow_control(f)).map_err(|e| e.description)
    }

    /// Relies on `SerialPort::set_parity`.
    #[verifier::external_body]
    pub(crate) fn set_parity(&mut self, p: Parity) -> Result<(), String> {
        self.port.set_parity(driver_parity(p)).map_err(|e| e.description)
    }

    /// Relies on `SerialPort::set_stop_bits`.
    #[verifier::external_body]
    pub(crate) fn set_stop_bits(&mut self, s: StopBits) -> Result<(), String> {
        self.port.set_stop_bits(driver_stop_bits(s)).map_err(|e| e.description)
    }

    /// Relies on `SerialPort::write_request_to_send`.
    #[verifier::external_body]
    pub(crate) fn write_request_to_send(&mut self, level: bool) -> Result<(), String> {
        self.port.write_request_to_send(level).map_err(|e| e.description)
    }

    /// Relies on `SerialPort::write_data_terminal_ready`.
    #[verifier::external_body]
    pub(crate) fn write_data_terminal_ready(&mut self, level: bool) -> Result<(), String> {
        self.port.write_data_terminal_ready(level).map_err(|e| e.description)
    }

    /// Relies on `SerialPort::read_clear_to_send`.
    #[verifier::external_body]
    pub(crate) fn read_clear_to_send(&mut self) -> Result<bool, String> {
        self.port.read_clear_to_send().map_err(|e| e.description)
    }

    /// Relies on `SerialPort::read_data_set_ready`.
    #[verifier::external_body]
    pub(crate) fn read_data_set_ready(&mut self) -> Result<bool, String> {
        self.port.read_data_set_ready().map_err(|e| e.description)
    }

    /// Relies on `SerialPort::read_ring_indicator`.
    #[verifier::external_body]
    pub(crate) fn read_ring_indicator(&mut self) -> Result<bool, String> {
        self.port.read_ring_indicator().map_err(|e| e.description)
    }

    /// Relies on `SerialPort::read_carrier_detect`.
    #[verifier::external_body]
    pub(crate) fn read_carrier_detect(&mut self) -> Result<bool, String> {
        self.port.read_carrier_detect().map_err(|e| e.description)
    }

    /// Relies on `SerialPort::bytes_to_read`.
    #[verifier::external_body]
    pub(crate) fn bytes_to_read(&self) -> Result<u32, String> {
        self.port.bytes_to_read().map_err(|e| e.description)
    }

    /// Relies on `SerialPort::bytes_to_write`.
    #[verifier::external_body]
    pub(crate) fn bytes_to_write(&self) -> Result<u32, String> {
        self.port.bytes_to_write().map_err(|e| e.description)
    }

    /// Relies on `SerialPort::clear`.
    #[verifier::external_body]
    pub(crate) fn clear(&self, c: ClearBuffer) -> Result<(), String> {
        self.port.clear(driver_clear_buffer(c)).map_err(|e| e.description)
    }

    /// Relies on `SerialPort::set_break`.
    #[verifier::external_body]
    pub(crate) fn set_break(&self) -> Result<(), String> {
        self.port.set_break().map_err(|e| e.description)
    }

    /// Relies on `SerialPort::clear_break`.
    #[verifier::external_body]
    pub(crate) fn clear_break(&self) -> Result<(), String> {
        self.port.clear_break().map_err(|e| e.description)
    }
}

} // verus!
