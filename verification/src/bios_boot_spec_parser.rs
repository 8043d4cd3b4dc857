//! Type 0x05 - BIOS Boot Specification Device Path.  No sub type decoder
//! is registered for this type yet, so every sub type is reported unknown;
//! add a decoder here as layouts are taken up.

use vstd::prelude::*;

use crate::error::{DecodeError, PathType};
use crate::DevicePathParser;

verus! {

/// What the BIOS Boot Specification parser returns: with no sub type
/// registered, its `UnknownSubType` error for every sub type.
pub open spec fn spec_bios_boot_spec_parse(sub_type: u8, data: Seq<u8>) -> Result<
    Seq<char>,
    DecodeError,
> {
    Err(DecodeError::UnknownSubType(PathType::BiosBootSpec, sub_type))
}

/// The parser for Type 0x05 - BIOS Boot Specification Device Path.
pub struct BiosBootSpecParser;

impl DevicePathParser for BiosBootSpecParser {
    open spec fn parse_spec(&self, sub_type: u8, data: Seq<u8>) -> Result<Seq<char>, DecodeError> {
        spec_bios_boot_spec_parse(sub_type, data)
    }

    fn parse(&self, sub_type: u8, data: &[u8]) -> (r: Result<String, DecodeError>) {
        Err(DecodeError::UnknownSubType(PathType::BiosBootSpec, sub_type))
    }
}

} // verus!
