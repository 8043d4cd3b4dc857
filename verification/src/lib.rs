//! Decoding of UEFI device path nodes into their canonical text form.
//!
//! A device path node is a `(type, sub_type, payload)` triple taken from a
//! boot event log.  [`DevicePathDispatcher::parse`] routes the major type
//! byte to the parser for that type, which routes the sub type byte to the
//! decoder for that binary layout; the decoder turns the payload bytes into
//! the text form the UEFI Device Path Protocol defines, such as `Pci(0,1)`
//! or `ACPI(PNP0A03,0)`.  Unknown discriminants and malformed payloads are
//! reported as typed errors with fixed message text.

pub mod acpi_parser;
pub mod bios_boot_spec_parser;
pub mod error;
pub mod hardware_parser;
pub mod laws;
pub mod media_parser;
pub mod messaging_parser;
pub mod text;

use vstd::prelude::*;

use crate::acpi_parser::AcpiParser;
use crate::bios_boot_spec_parser::BiosBootSpecParser;
use crate::error::DecodeError;
use crate::hardware_parser::HardwareParser;
use crate::media_parser::MediaParser;
use crate::messaging_parser::MessagingParser;

verus! {

/// The text of a successful decode, with the error carried through unchanged.
pub open spec fn result_text(r: Result<String, DecodeError>) -> Result<Seq<char>, DecodeError> {
    match r {
        Ok(s) => Ok(s@),
        Err(e) => Err(e),
    }
}

/// What a whole `(type, sub_type, payload)` triple decodes to: the text for
/// the node on success, the exact typed error otherwise.
pub open spec fn spec_parse(efi_type: u8, efi_sub_type: u8, data: Seq<u8>) -> Result<
    Seq<char>,
    DecodeError,
> {
    if efi_type == 0x01 {
        crate::hardware_parser::spec_hardware_parse(efi_sub_type, data)
    } else if efi_type == 0x02 {
        crate::acpi_parser::spec_acpi_parse(efi_sub_type, data)
    } else if efi_type == 0x03 {
        crate::messaging_parser::spec_messaging_parse(efi_sub_type, data)
    } else if efi_type == 0x04 {
        crate::media_parser::spec_media_parse(efi_sub_type, data)
    } else if efi_type == 0x05 {
        crate::bios_boot_spec_parser::spec_bios_boot_spec_parse(efi_sub_type, data)
    } else {
        Err(DecodeError::UnknownType(efi_type))
    }
}

/// Whether the major type byte has a registered parser.
pub open spec fn spec_known_type(efi_type: u8) -> bool {
    0x01 <= efi_type <= 0x05
}

/// The parser a known major type byte is registered to.
pub open spec fn spec_path_type(efi_type: u8) -> crate::error::PathType {
    if efi_type == 0x01 {
        crate::error::PathType::Hardware
    } else if efi_type == 0x02 {
        crate::error::PathType::Acpi
    } else if efi_type == 0x03 {
        crate::error::PathType::Messaging
    } else if efi_type == 0x04 {
        crate::error::PathType::Media
    } else {
        crate::error::PathType::BiosBootSpec
    }
}

/// Whether a `(type, sub_type)` pair has a registered decoder.  Each sub
/// type registry is scoped to its own type: Hardware and ACPI each
/// register sub type 0x01, the other types register none yet.
pub open spec fn spec_registered(efi_type: u8, efi_sub_type: u8) -> bool {
    (efi_type == 0x01 || efi_type == 0x02) && efi_sub_type == 0x01
}

/// A parser for one major device path type: it owns the sub type registry
/// for that type and dispatches the payload to the matching decoder.
pub trait DevicePathParser {
    /// The value `parse` returns, as a function of the sub type and payload.
    spec fn parse_spec(&self, sub_type: u8, data: Seq<u8>) -> Result<Seq<char>, DecodeError>;

    fn parse(&self, sub_type: u8, data: &[u8]) -> (r: Result<String, DecodeError>)
        ensures
            result_text(r) == self.parse_spec(sub_type, data@),
    ;
}

/// A decoder for one concrete `(type, sub_type)` binary layout.
pub trait DeviceSubTypeParser {
    /// The value `parse` returns, as a function of the payload.
    spec fn decode_spec(&self, data: Seq<u8>) -> Result<Seq<char>, DecodeError>;

    fn parse(&self, data: &[u8]) -> (r: Result<String, DecodeError>)
        ensures
            result_text(r) == self.decode_spec(data@),
    ;
}

/// The top level entry point: routes the major type byte to its parser.
pub struct DevicePathDispatcher;

impl DevicePathDispatcher {
    /// Decode one device path node.  Type bytes 0x01 through 0x05 are
    /// registered (Hardware, ACPI, Messaging, Media, BIOS Boot
    /// Specification); any other type byte is an `UnknownType` error.
    pub fn parse(efi_type: u8, efi_sub_type: u8, data: &[u8]) -> (r: Result<String, DecodeError>)
        ensures
            result_text(r) == spec_parse(efi_type, efi_sub_type, data@),
    {
        match efi_type {
            0x01 => HardwareParser.parse(efi_sub_type, data),
            0x02 => AcpiParser.parse(efi_sub_type, data),
            0x03 => MessagingParser.parse(efi_sub_type, data),
            0x04 => MediaParser.parse(efi_sub_type, data),
            0x05 => BiosBootSpecParser.parse(efi_sub_type, data),
            _ => Err(DecodeError::UnknownType(efi_type)),
        }
    }
}

} // verus!
