//! Type 0x03 - Messaging Device Path.  No sub type decoder is registered
//! for this type yet, so every sub type is reported unknown; add a decoder
//! here as layouts are taken up.

use vstd::prelude::*;

use crate::error::{DecodeError, PathType};
use crate::DevicePathParser;

verus! {

/// What the Messaging parser returns: with no sub type registered, the
/// Messaging `UnknownSubType` error for every sub type.
pub open spec fn spec_messaging_parse(sub_type: u8, data: Seq<u8>) -> Result<
    Seq<char>,
    DecodeError,
> {
    Err(DecodeError::UnknownSubType(PathType::Messaging, sub_type))
}

/// The parser for Type 0x03 - Messaging Device Path.
pub struct MessagingParser;

impl DevicePathParser for MessagingParser {
    open spec fn parse_spec(&self, sub_type: u8, data: Seq<u8>) -> Result<Seq<char>, DecodeError> {
        spec_messaging_parse(sub_type, data)
    }

    fn parse(&self, sub_type: u8, data: &[u8]) -> (r: Result<String, DecodeError>) {
        Err(DecodeError::UnknownSubType(PathType::Messaging, sub_type))
    }
}

} // verus!
