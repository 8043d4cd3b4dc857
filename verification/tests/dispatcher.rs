use device_paths::error::{DecodeError, MalformedKind, PathType};
use device_paths::DevicePathDispatcher;

#[test]
fn unsupported_test() {
    let actual = DevicePathDispatcher::parse(6, 1, b"0000");
    assert!(actual.is_err());
    assert_eq!(
        actual.unwrap_err().render(),
        "Unknown Device Path Type: 0x06"
    );
}

#[test]
fn unknown_type_zero() {
    let actual = DevicePathDispatcher::parse(0, 1, &[0x00, 0x01]);
    assert_eq!(actual, Err(DecodeError::UnknownType(0)));
    assert_eq!(
        actual.unwrap_err().render(),
        "Unknown Device Path Type: 0x00"
    );
}

#[test]
fn unknown_type_upper_hex() {
    let actual = DevicePathDispatcher::parse(0xAB, 0, &[]);
    assert_eq!(
        actual.unwrap_err().render(),
        "Unknown Device Path Type: 0xAB"
    );
    let actual = DevicePathDispatcher::parse(0xFF, 0xFF, &[]);
    assert_eq!(
        actual.unwrap_err().render(),
        "Unknown Device Path Type: 0xFF"
    );
}

#[test]
fn known_types_are_dispatched() {
    assert_eq!(
        DevicePathDispatcher::parse(1, 1, &[0x00, 0x01]).unwrap(),
        "Pci(0,1)"
    );
    assert_eq!(
        DevicePathDispatcher::parse(2, 1, &[0xd0, 0x41, 0x03, 0x0a, 0, 0, 0, 0]).unwrap(),
        "ACPI(PNP0A03,0)"
    );
}

#[test]
fn deterministic_on_success() {
    let data = [0xd0, 0x41, 0x03, 0x0a, 2, 0, 0, 0];
    let first = DevicePathDispatcher::parse(2, 1, &data).unwrap();
    let second = DevicePathDispatcher::parse(2, 1, &data).unwrap();
    assert_eq!(first, second);
}

#[test]
fn deterministic_on_error() {
    let first = DevicePathDispatcher::parse(9, 4, b"00");
    let second = DevicePathDispatcher::parse(9, 4, b"00");
    assert_eq!(first, second);
    assert_eq!(
        first.unwrap_err().render(),
        second.unwrap_err().render()
    );
}

#[test]
fn registry_isolation_messaging() {
    let actual = DevicePathDispatcher::parse(3, 1, &[0x00, 0x01]);
    assert_eq!(
        actual,
        Err(DecodeError::UnknownSubType(PathType::Messaging, 1))
    );
    assert_eq!(
        actual.unwrap_err().render(),
        "Unknown Messaging subtype: 0x01"
    );
}

#[test]
fn registry_isolation_media() {
    let actual = DevicePathDispatcher::parse(4, 1, &[0x00, 0x01]);
    assert_eq!(actual.unwrap_err().render(), "Unknown Media subtype: 0x01");
}

#[test]
fn registry_isolation_bios_boot_spec() {
    let actual = DevicePathDispatcher::parse(5, 1, &[0x00, 0x01]);
    assert_eq!(
        actual.unwrap_err().render(),
        "Unknown BIOS Boot Specification subtype: 0x01"
    );
}

#[test]
fn errors_propagate_unchanged() {
    let too_short = DevicePathDispatcher::parse(1, 1, &[7]);
    assert_eq!(
        too_short,
        Err(DecodeError::MalformedData(MalformedKind::PciDataTooShort))
    );
    let unknown_sub = DevicePathDispatcher::parse(2, 9, &[]);
    assert_eq!(
        unknown_sub,
        Err(DecodeError::UnknownSubType(PathType::Acpi, 9))
    );
}
