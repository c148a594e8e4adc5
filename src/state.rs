//! Configuration values of a serial port, port-type names, result records
//! handed to a host, and log verbosity.

use vstd::prelude::*;

verus! {

/// Port type name used when the connection kind cannot be determined.
pub const UNKNOWN: &'static str = "Unknown";

/// Port type name of a USB serial port.
pub const USB: &'static str = "USB";

/// Port type name of a Bluetooth serial port.
pub const BLUETOOTH: &'static str = "Bluetooth";

/// Port type name of a PCI serial port.
pub const PCI: &'static str = "PCI";

/// Status code and message returned from a host invocation.
#[derive(Clone)]
pub struct InvokeResult {
    /// 0 on success, another value on failure.
    pub code: i32,
    /// Human-readable description of the outcome.
    pub message: String,
}

/// Bytes read from a port, with their count.
#[derive(Clone)]
pub struct ReadData<'a> {
    /// The bytes read.
    pub data: &'a [u8],
    /// How many bytes were read.
    pub size: usize,
}

impl<'a> ReadData<'a> {
    /// The payload for `data`, whose size is its length.
    pub fn new(data: &'a [u8]) -> (r: ReadData<'a>)
        ensures
            r.data@ == data@,
            r.size == data@.len(),
    {
        ReadData { data, size: data.len() }
    }
}

/// Number of bits per character.
#[derive(Debug, Copy, Clone, PartialEq, Eq, Structural)]
pub enum DataBits {
    /// 5 bits per character.
    Five,
    /// 6 bits per character.
    Six,
    /// 7 bits per character.
    Seven,
    /// 8 bits per character.
    Eight,
}

impl DataBits {
    /// The number of bits: 5, 6, 7 or 8.
    pub open spec fn bits(&self) -> u8 {
        match self {
            DataBits::Five => 5,
            DataBits::Six => 6,
            DataBits::Seven => 7,
            DataBits::Eight => 8,
        }
    }

    /// The number of data bits.
    pub fn as_u8(&self) -> (r: u8)
        ensures
            r == self.bits(),
            5 <= r <= 8,
    {
        match self {
            DataBits::Five => 5,
            DataBits::Six => 6,
            DataBits::Seven => 7,
            DataBits::Eight => 8,
        }
    }
}

/// Flow control mode.
#[derive(Debug, Copy, Clone, PartialEq, Eq, Structural)]
pub enum FlowControl {
    /// No flow control.
    Off,
    /// XON/XOFF bytes.
    Software,
    /// RTS/CTS lines.
    Hardware,
}

impl FlowControl {
    /// The numeric code of the mode: 0 none, 1 software, 2 hardware.
    pub open spec fn code(&self) -> u8 {
        match self {
            FlowControl::Off => 0,
            FlowControl::Software => 1,
            FlowControl::Hardware => 2,
        }
    }

    /// The numeric code of the mode.
    pub fn as_u8(&self) -> (r: u8)
        ensures
            r == self.code(),
    {
        match self {
            FlowControl::Off => 0,
            FlowControl::Software => 1,
            FlowControl::Hardware => 2,
        }
    }
}

/// Parity checking mode.
#[derive(Debug, Copy, Clone, PartialEq, Eq, Structural)]
pub enum Parity {
    /// No parity bit.
    Off,
    /// Odd parity.
    Odd,
    /// Even parity.
    Even,
}

impl Parity {
    /// The numeric code of the mode: 0 none, 1 odd, 2 even.
    pub open spec fn code(&self) -> u8 {
        match self {
            Parity::Off => 0,
            Parity::Odd => 1,
            Parity::Even => 2,
        }
    }

    /// The numeric code of the mode.
    pub fn as_u8(&self) -> (r: u8)
        ensures
            r == self.code(),
    {
        match self {
            Parity::Off => 0,
            Parity::Odd => 1,
            Parity::Even => 2,
        }
    }
}

/// Number of stop bits.
#[derive(Debug, Copy, Clone, PartialEq, Eq, Structural)]
pub enum StopBits {
    /// One stop bit.
    One,
    /// Two stop bits.
    Two,
}

impl StopBits {
    /// The number of stop bits: 1 or 2.
    pub open spec fn bits(&self) -> u8 {
        match self {
            StopBits::One => 1,
            StopBits::Two => 2,
        }
    }

    /// The number of stop bits.
    pub fn as_u8(&self) -> (r: u8)
        ensures
            r == self.bits(),
    {
        match self {
            StopBits::One => 1,
            StopBits::Two => 2,
        }
    }
}

/// Which buffers of a port to discard.
#[derive(Debug, Copy, Clone, PartialEq, Eq, Structural)]
pub enum ClearBuffer {
    /// Received data not read yet.
    Input,
    /// Written data not transmitted yet.
    Output,
    /// Both.
    All,
}

/// Verbosity of the library's diagnostics.
#[derive(Debug, Copy, Clone, PartialEq, Eq, Structural)]
pub enum LogLevel {
    /// Nothing.
    Off,
    /// Errors only.
    Error,
    /// Errors and warnings.
    Warn,
    /// Errors, warnings and information.
    Info,
    /// Everything.
    Debug,
}

impl Default for LogLevel {
    fn default() -> (r: LogLevel)
        ensures
            r == LogLevel::Info,
    {
        LogLevel::Info
    }
}

impl LogLevel {
    /// How verbose the level is: 0 for `Off` up to 4 for `Debug`.
    pub open spec fn rank(&self) -> nat {
        match self {
            LogLevel::Off => 0,
            LogLevel::Error => 1,
            LogLevel::Warn => 2,
            LogLevel::Info => 3,
            LogLevel::Debug => 4,
        }
    }

    /// Whether error messages are shown at this level.
    pub fn should_log_error(&self) -> (r: bool)
        ensures
            r == (self.rank() >= LogLevel::Error.rank()),
    {
        !matches!(self, LogLevel::Off)
    }

    /// Whether warnings are shown at this level.
    pub fn should_log_warn(&self) -> (r: bool)
        ensures
            r == (self.rank() >= LogLevel::Warn.rank()),
    {
        matches!(self, LogLevel::Warn | LogLevel::Info | LogLevel::Debug)
    }

    /// Whether informational messages are shown at this level.
    pub fn should_log_info(&self) -> (r: bool)
        ensures
            r == (self.rank() >= LogLevel::Info.rank()),
    {
        matches!(self, LogLevel::Info | LogLevel::Debug)
    }

    /// Whether debug messages are shown at this level.
    pub fn should_log_debug(&self) -> (r: bool)
        ensures
            r == (self.rank() >= LogLevel::Debug.rank()),
    {
        matches!(self, LogLevel::Debug)
    }
}

/// The log verbosity in force, held by its owner and passed explicitly.
pub struct LogSettings {
    /// The current level.
    pub level: LogLevel,
}

impl LogSettings {
    /// Settings at the default level, `Info`.
    pub fn new() -> (r: LogSettings)
        ensures
            r.level == LogLevel::Info,
    {
        LogSettings { level: LogLevel::Info }
    }
}

/// Sets the log level in force.
pub fn set_log_level(settings: &mut LogSettings, level: LogLevel)
    ensures
        final(settings).level == level,
{
    settings.level = level;
}

/// The log level in force.
pub fn get_log_level(settings: &LogSettings) -> (r: LogLevel)
    ensures
        r == settings.level,
{
    settings.level
}

/// A response in the shape a mobile bridge expects: a success flag with
/// either a value or an error message.
pub struct MobileResult<T> {
    /// Whether the operation succeeded.
    pub success: bool,
    /// The value, on success.
    pub data: Option<T>,
    /// The message, on failure.
    pub error: Option<String>,
}

impl<T> MobileResult<T> {
    /// A successful response carrying `data`.
    pub fn success(data: T) -> (r: MobileResult<T>)
        ensures
            r.success,
            r.data == Some(data),
            r.error is None,
    {
        MobileResult { success: true, data: Some(data), error: None }
    }

    /// A failed response carrying `message`.
    pub fn error(message: String) -> (r: MobileResult<T>)
        ensures
            !r.success,
            r.data is None,
            r.error == Some(message),
    {
        MobileResult { success: false, data: None, error: Some(message) }
    }
}

} // verus!
