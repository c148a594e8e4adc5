use serialplugin::desktop_api::read_result;
use serialplugin::device::{PortSettings, ReadOutcome};
use serialplugin::discovery::{
    direct_ports_linux, direct_ports_macos, direct_ports_windows, get_port_info, name_le_exec,
    port_listing, sorted_listing, PortKind, UsbDetails,
};
use serialplugin::state::{DataBits, FlowControl, Parity, StopBits};
use serialplugin::text::{decimal_string, join};

fn pair(a: &str, b: &str) -> (String, String) {
    (a.to_string(), b.to_string())
}

#[test]
fn usb_port_attributes() {
    let d = get_port_info(&PortKind::Usb(UsbDetails {
        vid: 4292,
        pid: 60000,
        serial_number: Some("0001".to_string()),
        manufacturer: None,
        product: Some("CP2102".to_string()),
    }));
    assert_eq!(d.port_type, "USB");
    assert_eq!(d.vid, "4292");
    assert_eq!(d.pid, "60000");
    assert_eq!(d.serial_number, "0001");
    assert_eq!(d.manufacturer, "Unknown");
    assert_eq!(d.product, "CP2102");
}

#[test]
fn other_port_attributes() {
    assert_eq!(get_port_info(&PortKind::Pci).port_type, "PCI");
    assert_eq!(get_port_info(&PortKind::Bluetooth).port_type, "Bluetooth");
    let u = get_port_info(&PortKind::Unknown);
    assert_eq!(u.port_type, "Unknown");
    assert_eq!(u.vid, "Unknown");
    let l = port_listing(vec![("COM1".to_string(), PortKind::Pci), ("COM2".to_string(), PortKind::Unknown)]);
    assert_eq!(l.len(), 2);
    assert_eq!(l[0].0, "COM1");
    assert_eq!(l[0].1.port_type, "PCI");
    assert_eq!(l[1].1.port_type, "Unknown");
}

#[test]
fn linux_listing() {
    let usb = "Bus 001 Device 002: ID 10c4:ea60 CP210x UART Bridge\nBus 001 Device 003: ID 0403:6001 USB Serial\nBus 002 Device 001: hub\n";
    let dev = "null\nttyUSB0\nttyS1\nrfcomm0\nttyACM2\ntty\n";
    let r = direct_ports_linux(usb, dev);
    assert_eq!(
        r,
        vec![
            pair("Bus 001 Device 003: ID 0403:6001 USB Serial", "USB"),
            pair("/dev/ttyUSB0", "USB"),
            pair("/dev/ttyS1", "COM"),
            pair("/dev/rfcomm0", "Bluetooth"),
            pair("/dev/ttyACM2", "Virtual"),
        ]
    );
    assert!(direct_ports_linux("", "").is_empty());
}

#[test]
fn macos_listing() {
    let usb = "USB 3.1 Bus:\n  Keyboard\n  Serial Adapter:\n";
    let dev = "cu.usbserial-1\ntty.Bluetooth-Incoming-Port\ntty.debug\nnull\n";
    let r = direct_ports_macos(usb, dev);
    assert_eq!(
        r,
        vec![
            pair("USB 3.1 Bus:", "USB"),
            pair("  Serial Adapter:", "USB"),
            pair("/dev/cu.usbserial-1", "USB"),
            pair("/dev/tty.Bluetooth-Incoming-Port", "Bluetooth"),
            pair("/dev/tty.debug", "COM"),
        ]
    );
}

#[test]
fn windows_listing() {
    let usb = "DeviceID  Name\r\nUSB\\VID_1  COM4 (USB Serial)\r\n\r\nlonely\r\n";
    let com = "DeviceID  Name\r\nCOM1      Communications Port\r\n";
    let r = direct_ports_windows(usb, com);
    assert_eq!(r, vec![pair("COM4", "USB"), pair("COM1", "COM")]);
}

#[test]
fn decimal_and_join() {
    assert_eq!(decimal_string(0), "0");
    assert_eq!(decimal_string(100), "100");
    assert_eq!(decimal_string(18446744073709551615), "18446744073709551615");
    assert_eq!(join(&vec!["a".to_string(), "b".to_string()], ", "), "a, b");
    assert_eq!(join(&vec![], ", "), "");
}

#[test]
fn read_results() {
    assert_eq!(read_result(5, ReadOutcome::Data(b"hi".to_vec())).unwrap(), "hi");
    assert_eq!(read_result(5, ReadOutcome::Data(vec![104, 0xff])).unwrap(), "h\u{fffd}");
    assert_eq!(read_result(250, ReadOutcome::TimedOut).unwrap_err().to_string(), "no data received within 250 ms");
    assert_eq!(
        read_result(5, ReadOutcome::Failed("eof".to_string())).unwrap_err().to_string(),
        "Failed to read data: eof"
    );
}

#[test]
fn settings_defaults() {
    let s = PortSettings::resolve(9600, None, None, None, None, None);
    assert_eq!(s.data_bits, DataBits::Eight);
    assert_eq!(s.flow_control, FlowControl::Off);
    assert_eq!(s.parity, Parity::Off);
    assert_eq!(s.stop_bits, StopBits::One);
    assert_eq!(s.timeout_ms, 200);
    let t = PortSettings::resolve(115200, Some(DataBits::Seven), Some(FlowControl::Hardware), Some(Parity::Even), Some(StopBits::Two), Some(5));
    assert_eq!((t.baud_rate, t.data_bits, t.timeout_ms), (115200, DataBits::Seven, 5));
}

#[test]
fn names_order_by_code_point() {
    assert!(name_le_exec("COM1", "COM2"));
    assert!(!name_le_exec("COM2", "COM1"));
    assert!(name_le_exec("COM", "COM1"));
    assert!(!name_le_exec("COM1", "COM"));
    assert!(name_le_exec("COM1", "COM1"));
    assert!(name_le_exec("", ""));
    assert!(name_le_exec("/dev/ttyS0", "COM1"));
}

#[test]
fn listing_is_sorted_by_name() {
    let l = sorted_listing(vec![
        ("COM3".to_string(), PortKind::Pci),
        ("/dev/ttyUSB0".to_string(), PortKind::Bluetooth),
        ("COM1".to_string(), PortKind::Unknown),
    ]);
    let names: Vec<&str> = l.iter().map(|e| e.0.as_str()).collect();
    assert_eq!(names, vec!["/dev/ttyUSB0", "COM1", "COM3"]);
    assert_eq!(l[0].1.port_type, "Bluetooth");
    assert_eq!(l[2].1.port_type, "PCI");
}
