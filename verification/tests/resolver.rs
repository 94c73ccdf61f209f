use dorarobot::so101::resolver::{parse_hex_u16, select_arm_port, InvalidHexError, ScannedPort, UsbDeviceConfig};

#[test]
fn parse_hex_with_prefix() {
    assert_eq!(parse_hex_u16("0x0483").unwrap(), 0x0483);
    assert_eq!(parse_hex_u16("0x5740").unwrap(), 0x5740);
}

#[test]
fn parse_hex_without_prefix() {
    assert_eq!(parse_hex_u16("0483").unwrap(), 0x0483);
}

#[test]
fn parse_hex_lowercase() {
    assert_eq!(parse_hex_u16("0xabcd").unwrap(), 0xabcd);
}

#[test]
fn parse_hex_max() {
    assert_eq!(parse_hex_u16("0xffff").unwrap(), 0xffff);
}

#[test]
fn parse_hex_invalid() {
    assert!(parse_hex_u16("0xghij").is_err());
    assert!(parse_hex_u16("").is_err());
    assert!(parse_hex_u16("0x1_0000").is_err()); // overflow
}

#[test]
fn parse_hex_zero() {
    assert_eq!(parse_hex_u16("0x0000").unwrap(), 0);
    assert_eq!(parse_hex_u16("0").unwrap(), 0);
}

#[test]
fn device_config_defaults() {
    let cfg = UsbDeviceConfig { vid: 0x0483, pid: 0x5740, serial: None };
    assert_eq!(cfg.vid, 0x0483);
    assert_eq!(cfg.pid, 0x5740);
    assert!(cfg.serial.is_none());
}

#[test]
fn device_config_with_serial() {
    let cfg = UsbDeviceConfig { vid: 0x0483, pid: 0x5740, serial: Some("5A7A0555021".into()) };
    assert_eq!(cfg.serial, Some("5A7A0555021".into()));
}

#[test]
fn parse_hex_agrees_with_std() {
    for s in [
        "0x0483", "0483", "+ff", "0x+1a", "FFFF", "10000", "0x", "+", "-1", "0x-1", "00000001",
        "0X12", "0x0x1", " 12", "1 ", "é", "0xFfFf", "0x00010000",
    ] {
        let stripped = s.strip_prefix("0x").unwrap_or(s);
        let expected = u16::from_str_radix(stripped, 16).ok();
        let got = parse_hex_u16(s);
        assert_eq!(got.as_ref().ok().copied(), expected, "input {s:?}");
        if let Err(e) = got {
            assert_eq!(e.value, stripped);
        }
    }
}

#[test]
fn parse_hex_error_carries_stripped_text() {
    let e = parse_hex_u16("0xzz").unwrap_err();
    assert_eq!(e.value, "zz");
    let e = parse_hex_u16("12345").unwrap_err();
    assert_eq!(e.value, "12345");
}

fn scanned(matched: bool, path: &str, alt: Option<&str>) -> ScannedPort {
    ScannedPort {
        matched,
        system_path: path.to_string(),
        system_path_alt: alt.map(|a| a.to_string()),
    }
}

#[test]
fn select_port_takes_first_match_and_prefers_alt_path() {
    let devices = vec![
        scanned(false, "/dev/ttyUSB0", None),
        scanned(true, "/dev/ttyACM0", Some("/dev/serial/by-id/arm")),
        scanned(true, "/dev/ttyACM1", None),
    ];
    assert_eq!(select_arm_port(&devices).as_deref(), Some("/dev/serial/by-id/arm"));
}

#[test]
fn select_port_falls_back_to_system_path() {
    let devices = vec![scanned(true, "/dev/ttyACM1", None)];
    assert_eq!(select_arm_port(&devices).as_deref(), Some("/dev/ttyACM1"));
}

#[test]
fn select_port_none_without_match() {
    let devices = vec![scanned(false, "/dev/ttyUSB0", Some("/dev/x"))];
    assert_eq!(select_arm_port(&devices), None);
    assert_eq!(select_arm_port(&Vec::new()), None);
}

#[test]
fn invalid_hex_message() {
    let e = parse_hex_u16("0xzz").unwrap_err();
    assert_eq!(e.message(), "invalid hex value: zz");
    let e = InvalidHexError { value: "12345".to_string() };
    assert_eq!(e.message(), "invalid hex value: 12345");
}

#[test]
fn no_match_message_formats_ids_and_serial() {
    let c = UsbDeviceConfig { vid: 0x0483, pid: 0xabcd, serial: None };
    assert_eq!(c.no_match_message(), "no matching USB device: vid=0x0483, pid=0xabcd");
    let c = UsbDeviceConfig { vid: 0x1a, pid: 0xFFFF, serial: Some("SN1".to_string()) };
    assert_eq!(
        c.no_match_message(),
        format!("no matching USB device: vid={:#06x}, pid={:#06x}, serial=SN1", 0x1au16, 0xffffu16)
    );
}
