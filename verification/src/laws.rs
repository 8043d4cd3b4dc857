//! The general laws of the decoder, each stated over the model that the
//! executable contracts are pinned to.

use vstd::prelude::*;

use crate::error::{DecodeError, MalformedKind, PathType};
use crate::text::spec_hex2;
use crate::{result_text, spec_known_type, spec_parse, spec_path_type, spec_registered};

verus! {

/// Every major type byte outside the registered range 0x01 through 0x05
/// fails with `UnknownType`, rendered exactly as the fixed prefix followed
/// by the type byte as two upper case hex digits.
pub proof fn lemma_unknown_type(efi_type: u8, efi_sub_type: u8, data: Seq<u8>)
    requires
        !spec_known_type(efi_type),
    ensures
        spec_parse(efi_type, efi_sub_type, data) == Err::<Seq<char>, DecodeError>(
            DecodeError::UnknownType(efi_type),
        ),
        DecodeError::UnknownType(efi_type).spec_text() == "Unknown Device Path Type: 0x"@
            + spec_hex2(efi_type as int),
{
}

/// Under the Hardware type, every sub type byte other than 0x01 fails
/// with the Hardware `UnknownSubType` error, rendered exactly as the
/// fixed prefix followed by the sub type byte as two upper case hex
/// digits, whatever the payload.
pub proof fn lemma_hardware_unknown_subtype(efi_sub_type: u8, data: Seq<u8>)
    requires
        efi_sub_type != 0x01,
    ensures
        spec_parse(0x01, efi_sub_type, data) == Err::<Seq<char>, DecodeError>(
            DecodeError::UnknownSubType(PathType::Hardware, efi_sub_type),
        ),
        DecodeError::UnknownSubType(PathType::Hardware, efi_sub_type).spec_text()
            == "Unknown Hardware subtype: 0x"@ + spec_hex2(efi_sub_type as int),
{
    reveal_strlit("Unknown ");
    reveal_strlit("Hardware");
    reveal_strlit(" subtype: 0x");
    reveal_strlit("Unknown Hardware subtype: 0x");
    assert("Unknown "@ + "Hardware"@ + " subtype: 0x"@ =~= "Unknown Hardware subtype: 0x"@);
}

/// Under the ACPI type, every sub type byte other than 0x01 fails with
/// the ACPI `UnknownSubType` error, rendered exactly as the fixed prefix
/// followed by the sub type byte as two upper case hex digits, whatever
/// the payload.
pub proof fn lemma_acpi_unknown_subtype(efi_sub_type: u8, data: Seq<u8>)
    requires
        efi_sub_type != 0x01,
    ensures
        spec_parse(0x02, efi_sub_type, data) == Err::<Seq<char>, DecodeError>(
            DecodeError::UnknownSubType(PathType::Acpi, efi_sub_type),
        ),
        DecodeError::UnknownSubType(PathType::Acpi, efi_sub_type).spec_text()
            == "Unknown ACPI subtype: 0x"@ + spec_hex2(efi_sub_type as int),
{
    reveal_strlit("Unknown ");
    reveal_strlit("ACPI");
    reveal_strlit(" subtype: 0x");
    reveal_strlit("Unknown ACPI subtype: 0x");
    assert("Unknown "@ + "ACPI"@ + " subtype: 0x"@ =~= "Unknown ACPI subtype: 0x"@);
}

/// A PCI payload of fewer than two bytes fails with the fixed too-short
/// message.
pub proof fn lemma_pci_too_short(data: Seq<u8>)
    requires
        data.len() < 2,
    ensures
        spec_parse(0x01, 0x01, data) == Err::<Seq<char>, DecodeError>(
            DecodeError::MalformedData(MalformedKind::PciDataTooShort),
        ),
        DecodeError::MalformedData(MalformedKind::PciDataTooShort).spec_text()
            == "PCI data is too short"@,
{
}

/// An ACPI payload of fewer than eight bytes fails with the fixed
/// too-short message.
pub proof fn lemma_acpi_too_short(data: Seq<u8>)
    requires
        data.len() < 8,
    ensures
        spec_parse(0x02, 0x01, data) == Err::<Seq<char>, DecodeError>(
            DecodeError::MalformedData(MalformedKind::AcpiDataTooShort),
        ),
        DecodeError::MalformedData(MalformedKind::AcpiDataTooShort).spec_text()
            == "ACPI sub type data length must be at least 8 bytes"@,
{
}

/// Decoding is deterministic: two results of `DevicePathDispatcher::parse`
/// on the same `(type, sub_type, payload)` triple carry the same text, or
/// the same error and hence the same rendered error text.
pub proof fn lemma_parse_deterministic(
    efi_type: u8,
    efi_sub_type: u8,
    data: Seq<u8>,
    r1: Result<String, DecodeError>,
    r2: Result<String, DecodeError>,
)
    requires
        result_text(r1) == spec_parse(efi_type, efi_sub_type, data),
        result_text(r2) == spec_parse(efi_type, efi_sub_type, data),
    ensures
        result_text(r1) == result_text(r2),
        r1 matches Err(e1) ==> r2 matches Err(e2) && e1.spec_text() == e2.spec_text(),
{
}

/// Sub type registries are isolated per type: under any known type, a sub
/// type byte not registered for that very type fails with that type's own
/// `UnknownSubType` error, even when the same byte is registered under
/// another type.
pub proof fn lemma_registry_isolation(efi_type: u8, efi_sub_type: u8, data: Seq<u8>)
    requires
        spec_known_type(efi_type),
        !spec_registered(efi_type, efi_sub_type),
    ensures
        spec_parse(efi_type, efi_sub_type, data) == Err::<Seq<char>, DecodeError>(
            DecodeError::UnknownSubType(spec_path_type(efi_type), efi_sub_type),
        ),
{
}

/// Decoding succeeds exactly on the registered `(type, sub_type)` pairs
/// whose payload meets that layout's minimum length: PCI under Hardware
/// with at least two bytes, and the ACPI node with at least eight.
pub proof fn lemma_parse_ok_condition(efi_type: u8, efi_sub_type: u8, data: Seq<u8>)
    ensures
        spec_parse(efi_type, efi_sub_type, data) matches Ok(_) <==> (spec_registered(
            efi_type,
            efi_sub_type,
        ) && (efi_type == 0x01 ==> data.len() >= 2) && (efi_type == 0x02 ==> data.len() >= 8)),
{
}

} // verus!
