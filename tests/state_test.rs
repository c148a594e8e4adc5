use serialplugin::state::{
    get_log_level, set_log_level, ClearBuffer, DataBits, FlowControl, LogLevel, LogSettings,
    MobileResult, Parity, ReadData, StopBits,
};

#[test]
fn test_flow_control() {
    assert_eq!(FlowControl::Off as u8, 0);
    assert_eq!(FlowControl::Software as u8, 1);
    assert_eq!(FlowControl::Hardware as u8, 2);
}

#[test]
fn test_parity() {
    assert_eq!(Parity::Off as u8, 0);
    assert_eq!(Parity::Odd as u8, 1);
    assert_eq!(Parity::Even as u8, 2);
}

#[test]
fn numeric_values_of_settings() {
    assert_eq!(DataBits::Five.as_u8(), 5);
    assert_eq!(DataBits::Eight.as_u8(), 8);
    assert_eq!(FlowControl::Hardware.as_u8(), 2);
    assert_eq!(Parity::Even.as_u8(), 2);
    assert_eq!(StopBits::One.as_u8(), 1);
    assert_eq!(StopBits::Two.as_u8(), 2);
    assert_ne!(ClearBuffer::Input, ClearBuffer::All);
}

#[test]
fn test_log_level_none() {
    let mut settings = LogSettings::new();
    set_log_level(&mut settings, LogLevel::Off);
    let level = get_log_level(&settings);
    if level.should_log_error() {
        println!("This should not be printed");
    }
    assert!(!level.should_log_error());
    assert!(!level.should_log_warn());
    assert!(!level.should_log_info());
    assert!(!level.should_log_debug());
}

#[test]
fn test_log_level_error() {
    let mut settings = LogSettings::new();
    set_log_level(&mut settings, LogLevel::Error);
    let level = get_log_level(&settings);
    if level.should_log_error() {
        println!("Error message");
    }
    assert!(level.should_log_error());
    assert!(!level.should_log_warn());
    assert!(!level.should_log_info());
    assert!(!level.should_log_debug());
}

#[test]
fn test_log_level_debug() {
    let mut settings = LogSettings::new();
    set_log_level(&mut settings, LogLevel::Debug);
    let level = get_log_level(&settings);
    if level.should_log_error() {
        println!("Error message");
    }
    if level.should_log_warn() {
        println!("Warning message");
    }
    if level.should_log_info() {
        println!("Info message");
    }
    if level.should_log_debug() {
        println!("Debug message");
    }
    assert!(level.should_log_error() && level.should_log_warn());
    assert!(level.should_log_info() && level.should_log_debug());
}

#[test]
fn default_log_level_is_info() {
    let settings = LogSettings::new();
    assert_eq!(get_log_level(&settings), LogLevel::Info);
    assert_eq!(LogLevel::default(), LogLevel::Info);
    assert!(LogLevel::Warn.should_log_warn());
    assert!(!LogLevel::Warn.should_log_info());
}

#[test]
fn mobile_results_and_read_data() {
    let ok: MobileResult<u32> = MobileResult::success(7);
    assert!(ok.success && ok.data == Some(7) && ok.error.is_none());
    let err: MobileResult<u32> = MobileResult::error("broken".to_string());
    assert!(!err.success && err.data.is_none());
    assert_eq!(err.error, Some("broken".to_string()));
    let bytes = [1u8, 2, 3];
    let payload = ReadData::new(&bytes);
    assert_eq!(payload.size, 3);
    assert_eq!(payload.data, &bytes[..]);
}
