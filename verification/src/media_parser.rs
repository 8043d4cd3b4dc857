//! Type 0x04 - Media Device Path.  No sub type decoder is registered for
//! this type yet, so every sub type is reported unknown; add a decoder
//! here as layouts are taken up.

use vstd::prelude::*;

use crate::error::{DecodeError, PathType};
use crate::DevicePathParser;

verus! {

/// What the Media parser returns: with no sub type registered, the Media
/// `UnknownSubType` error for every sub type.
pub open spec fn spec_media_parse(sub_type: u8, data: Seq<u8>) -> Result<Seq<char>, DecodeError> {
    Err(DecodeError::UnknownSubType(PathType::Media, sub_type))
}

/// The parser for Type 0x04 - Media Device Path.
pub struct MediaParser;

impl DevicePathParser for MediaParser {
    open spec fn parse_spec(&self, sub_type: u8, data: Seq<u8>) -> Result<Seq<char>, DecodeError> {
        spec_media_parse(sub_type, data)
    }

    fn parse(&self, sub_type: u8, data: &[u8]) -> (r: Result<String, DecodeError>) {
        Err(DecodeError::UnknownSubType(PathType::Media, sub_type))
    }
}

} // verus!
