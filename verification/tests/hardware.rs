use device_paths::error::{DecodeError, MalformedKind};
use device_paths::hardware_parser::{HardwareParser, PciParser};
use device_paths::{DevicePathParser, DeviceSubTypeParser};

#[test]
fn hardware_test_formatter() {
    let cases: [(u8, [u8; 2], &str); 3] = [
        (1, [0x00, 0x01], "Pci(0,1)"),
        (1, [0x00, 0x00], "Pci(0,0)"),
        (1, [0x00, 0x04], "Pci(0,4)"),
    ];
    for (sub_type, data, expected_result) in cases {
        let actual = HardwareParser.parse(sub_type, &data);
        assert!(actual.is_ok());
        assert_eq!(actual.unwrap(), expected_result);
    }
}

#[test]
fn hardware_unsupported_test() {
    let cases: [(u8, &str); 5] = [
        (2, "Unknown Hardware subtype: 0x02"),
        (3, "Unknown Hardware subtype: 0x03"),
        (4, "Unknown Hardware subtype: 0x04"),
        (5, "Unknown Hardware subtype: 0x05"),
        (6, "Unknown Hardware subtype: 0x06"),
    ];
    for (sub_type, expected_msg) in cases {
        let actual = HardwareParser.parse(sub_type, b"0000");
        assert!(actual.is_err());
        assert_eq!(actual.unwrap_err().render(), expected_msg);
    }
}

#[test]
fn unknown_subtype_upper_hex() {
    let actual = HardwareParser.parse(0xAB, &[]);
    assert_eq!(actual.unwrap_err().render(), "Unknown Hardware subtype: 0xAB");
}

#[test]
fn pci_large_values() {
    assert_eq!(PciParser.parse(&[255, 255]).unwrap(), "Pci(255,255)");
    assert_eq!(PciParser.parse(&[7, 31]).unwrap(), "Pci(7,31)");
}

#[test]
fn pci_extra_bytes_ignored() {
    assert_eq!(PciParser.parse(&[2, 3, 0x55, 0x66]).unwrap(), "Pci(2,3)");
}

#[test]
fn pci_too_short() {
    let empty = PciParser.parse(&[]);
    assert_eq!(
        empty,
        Err(DecodeError::MalformedData(MalformedKind::PciDataTooShort))
    );
    assert_eq!(empty.unwrap_err().render(), "PCI data is too short");

    let one_byte = HardwareParser.parse(1, &[9]);
    assert_eq!(one_byte.unwrap_err().render(), "PCI data is too short");
}
