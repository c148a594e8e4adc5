//! The error type of every fallible operation.

use vstd::prelude::*;
use vstd::string::StringExecFns;

verus! {

/// An error of a serial-port operation, carrying a human-readable message.
#[derive(Debug, Clone)]
pub enum Error {
    /// A failure of the underlying I/O layer.
    Io(String),
    /// A failure described by the library itself (unknown port, timeout, ...).
    String(String),
    /// A failure reported by the serial driver.
    SerialPort(String),
}

/// A value that can become an error message.
pub trait IntoMessage: Sized {
    /// The text of the message.
    spec fn message_text(&self) -> Seq<char>;

    /// The message as a string.
    fn into_message(self) -> (r: String)
        ensures
            r@ == self.message_text(),
    ;
}

impl<'a> IntoMessage for &'a str {
    open spec fn message_text(&self) -> Seq<char> {
        (*self)@
    }

    fn into_message(self) -> (r: String) {
        String::from_str(self)
    }
}

impl IntoMessage for String {
    open spec fn message_text(&self) -> Seq<char> {
        self@
    }

    fn into_message(self) -> (r: String) {
        self
    }
}

#[verifier::external_type_specification]
#[verifier::external_body]
pub struct ExIoError(std::io::Error);

impl Error {
    /// The message carried by the error, without its category prefix.
    pub open spec fn text(&self) -> Seq<char> {
        match self {
            Error::Io(s) => s@,
            Error::String(s) => s@,
            Error::SerialPort(s) => s@,
        }
    }

    /// The message as shown to a user: the category prefix, then the text.
    pub open spec fn display(&self) -> Seq<char> {
        match self {
            Error::Io(s) => "IO error: "@ + s@,
            Error::String(s) => s@,
            Error::SerialPort(s) => "Serial port error: "@ + s@,
        }
    }

    /// An error of the library's own, with the given message.
    pub fn new<S: IntoMessage>(msg: S) -> (r: Error)
        ensures
            r is String,
            r.text() == msg.message_text(),
    {
        Error::String(msg.into_message())
    }

    /// The user-facing message of the error.
    pub fn to_string(&self) -> (r: String)
        ensures
            r@ == self.display(),
    {
        match self {
            Error::Io(s) => String::from_str("IO error: ").concat(s.as_str()),
            Error::String(s) => s.clone(),
            Error::SerialPort(s) => String::from_str("Serial port error: ").concat(s.as_str()),
        }
    }
}

/// Relies on the `Display` impl of `std::io::Error`: its message.
#[verifier::external_body]
fn io_error_text(e: &std::io::Error) -> String {
    e.to_string()
}

/// Relies on `std::io::Error::new`, with the kind `Other` and the given message.
#[verifier::external_body]
fn io_error_other(msg: String) -> std::io::Error {
    std::io::Error::new(std::io::ErrorKind::Other, msg)
}

impl From<std::io::Error> for Error {
    fn from(e: std::io::Error) -> Error {
        Error::Io(io_error_text(&e))
    }
}

impl vstd::std_specs::convert::FromSpecImpl<std::io::Error> for Error {
    open spec fn obeys_from_spec() -> bool {
        false
    }

    open spec fn from_spec(v: std::io::Error) -> Error {
        Error::Io(vstd::pervasive::arbitrary())
    }
}

impl From<String> for Error {
    fn from(s: String) -> Error {
        Error::String(s)
    }
}

impl vstd::std_specs::convert::FromSpecImpl<String> for Error {
    open spec fn obeys_from_spec() -> bool {
        true
    }

    open spec fn from_spec(v: String) -> Error {
        Error::String(v)
    }
}

impl From<&str> for Error {
    fn from(s: &str) -> Error {
        Error::String(String::from_str(s))
    }
}

impl vstd::std_specs::convert::FromSpecImpl<&str> for Error {
    open spec fn obeys_from_spec() -> bool {
        false
    }

    open spec fn from_spec(v: &str) -> Error {
        Error::String(vstd::pervasive::arbitrary())
    }
}

impl From<Error> for std::io::Error {
    fn from(e: Error) -> std::io::Error {
        match e {
            Error::Io(s) => io_error_other(s),
            Error::String(s) => io_error_other(s),
            Error::SerialPort(s) => io_error_other(s),
        }
    }
}

impl vstd::std_specs::convert::FromSpecImpl<Error> for std::io::Error {
    open spec fn obeys_from_spec() -> bool {
        false
    }

    open spec fn from_spec(v: Error) -> std::io::Error {
        vstd::pervasive::arbitrary()
    }
}

} // verus!
