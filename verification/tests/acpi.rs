use device_paths::acpi_parser::{AcpiParser, AcpiSubTypeParser};
use device_paths::error::{DecodeError, MalformedKind, PathType};
use device_paths::{DevicePathParser, DeviceSubTypeParser};

#[test]
fn acpi_test_formatter() {
    let cases: [(u8, [u8; 8], &str); 2] = [
        (1, [0xd0, 0x41, 0x03, 0x0a, 0x00, 0x00, 0x00, 0x00], "ACPI(PNP0A03,0)"),
        (1, [0xd0, 0x41, 0x03, 0x0a, 0x02, 0x00, 0x00, 0x00], "ACPI(PNP0A03,2)"),
    ];
    for (sub_type, data, expected_result) in cases {
        let actual = AcpiParser.parse(sub_type, &data);
        assert!(actual.is_ok());
        assert_eq!(actual.unwrap(), expected_result);
    }
}

#[test]
fn acpi_unsupported_test() {
    let cases: [(u8, &str); 2] = [
        (2, "Unknown ACPI subtype: 0x02"),
        (3, "Unknown ACPI subtype: 0x03"),
    ];
    for (sub_type, expected_msg) in cases {
        let actual = AcpiParser.parse(sub_type, b"0000");
        assert!(actual.is_err());
        assert_eq!(actual.unwrap_err().render(), expected_msg);
    }
}

#[test]
fn unknown_subtype_value() {
    let actual = AcpiParser.parse(0x7F, &[0; 8]);
    assert_eq!(actual, Err(DecodeError::UnknownSubType(PathType::Acpi, 0x7F)));
    assert_eq!(actual.unwrap_err().render(), "Unknown ACPI subtype: 0x7F");
}

#[test]
fn acpi_too_short() {
    for len in 0..8usize {
        let data = vec![0u8; len];
        let actual = AcpiSubTypeParser.parse(&data);
        assert_eq!(
            actual,
            Err(DecodeError::MalformedData(MalformedKind::AcpiDataTooShort))
        );
        assert_eq!(
            actual.unwrap_err().render(),
            "ACPI sub type data length must be at least 8 bytes"
        );
    }
}

#[test]
fn acpi_all_zero_payload() {
    // hid 0 packs vendor letters '@','@','@' and device 0000; uid is 0.
    let actual = AcpiSubTypeParser.parse(&[0; 8]);
    assert_eq!(actual.unwrap(), "ACPI(@@@0000,0)");
}

#[test]
fn acpi_all_ones_payload() {
    // hid 0xFFFFFFFF packs the top letter value 31 three times, '_', a
    // device of FFFF, and the largest 32-bit uid.
    let actual = AcpiSubTypeParser.parse(&[0xFF; 8]);
    assert_eq!(actual.unwrap(), "ACPI(___FFFF,4294967295)");
}

#[test]
fn acpi_vendor_letter_fields() {
    // vendor 0x0740 packs the letter values 1, 26, 0: "AZ@"; the device
    // 0x1234 keeps its leading digit; uid 7 is decimal.
    let data = [0x40, 0x07, 0x34, 0x12, 0x07, 0x00, 0x00, 0x00];
    let actual = AcpiSubTypeParser.parse(&data);
    assert_eq!(actual.unwrap(), "ACPI(AZ@1234,7)");
}

#[test]
fn acpi_extra_bytes_ignored() {
    let data = [0xd0, 0x41, 0x03, 0x0a, 0x01, 0x00, 0x00, 0x00, 0xEE, 0xEE];
    let actual = AcpiSubTypeParser.parse(&data);
    assert_eq!(actual.unwrap(), "ACPI(PNP0A03,1)");
}

#[test]
fn acpi_uid_little_endian() {
    // uid bytes 01 02 00 00 read little endian: 0x0201 = 513.
    let data = [0xd0, 0x41, 0x03, 0x0a, 0x01, 0x02, 0x00, 0x00];
    let actual = AcpiSubTypeParser.parse(&data);
    assert_eq!(actual.unwrap(), "ACPI(PNP0A03,513)");
}
