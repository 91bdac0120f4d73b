use serial_light::args::byte_arg;
use serial_light::ports::{select_ports, PortEntry};

#[test]
fn byte_arg_reads_decimal() {
    assert_eq!(byte_arg("42"), 42);
    assert_eq!(byte_arg("0"), 0);
    assert_eq!(byte_arg("255"), 255);
    assert_eq!(byte_arg("+7"), 7);
    assert_eq!(byte_arg("007"), 7);
}

#[test]
fn byte_arg_defaults_to_zero() {
    assert_eq!(byte_arg(""), 0);
    assert_eq!(byte_arg("256"), 0);
    assert_eq!(byte_arg("-1"), 0);
    assert_eq!(byte_arg("+"), 0);
    assert_eq!(byte_arg("1a"), 0);
    assert_eq!(byte_arg(" 1"), 0);
}

fn entry(name: &str, serial: Option<&str>) -> PortEntry {
    PortEntry { name: name.to_string(), usb_serial: serial.map(|s| s.to_string()) }
}

#[test]
fn select_ports_by_usb_serial() {
    let ports = vec![
        entry("/dev/ttyS0", None),
        entry("/dev/ttyACM0", Some("A1")),
        entry("/dev/ttyACM1", Some("B2")),
        entry("/dev/ttyACM2", Some("A1")),
    ];
    assert_eq!(
        select_ports(&ports, &"A1".to_string()),
        vec!["/dev/ttyACM0".to_string(), "/dev/ttyACM2".to_string()]
    );
    assert_eq!(select_ports(&ports, &"C3".to_string()), Vec::<String>::new());
}

#[test]
fn select_ports_empty_serial_matches_only_empty() {
    let ports = vec![entry("/dev/ttyS0", None), entry("/dev/ttyUSB0", Some(""))];
    assert_eq!(select_ports(&ports, &String::new()), vec!["/dev/ttyUSB0".to_string()]);
}
