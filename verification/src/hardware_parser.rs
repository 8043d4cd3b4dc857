//! Type 0x01 - Hardware Device Path.  The one registered sub type is
//! 0x01, the PCI node: byte 0 is the PCI function number, byte 1 the PCI
//! device number, rendered as `Pci({function},{device})`.

use vstd::prelude::*;

use crate::error::{DecodeError, MalformedKind, PathType};
use crate::text::{spec_decimal, u32_decimal};
use crate::{DevicePathParser, DeviceSubTypeParser};

verus! {

/// The text of a PCI node: `Pci(` function `,` device `)`, both decimal.
pub open spec fn spec_pci_text(func_num: u8, device_num: u8) -> Seq<char> {
    "Pci("@ + spec_decimal(func_num as nat) + ","@ + spec_decimal(device_num as nat) + ")"@
}

/// What a PCI payload decodes to: its text when it holds at least the two
/// layout bytes, the too-short error otherwise.
pub open spec fn spec_pci_decode(data: Seq<u8>) -> Result<Seq<char>, DecodeError> {
    if data.len() < 2 {
        Err(DecodeError::MalformedData(MalformedKind::PciDataTooShort))
    } else {
        Ok(spec_pci_text(data[0], data[1]))
    }
}

/// What the Hardware parser returns: the PCI decode under sub type 0x01,
/// the Hardware `UnknownSubType` error under every other sub type.
pub open spec fn spec_hardware_parse(sub_type: u8, data: Seq<u8>) -> Result<
    Seq<char>,
    DecodeError,
> {
    if sub_type == 0x01 {
        spec_pci_decode(data)
    } else {
        Err(DecodeError::UnknownSubType(PathType::Hardware, sub_type))
    }
}

/// The parser for Type 0x01 - Hardware Device Path.
pub struct HardwareParser;

impl DevicePathParser for HardwareParser {
    open spec fn parse_spec(&self, sub_type: u8, data: Seq<u8>) -> Result<Seq<char>, DecodeError> {
        spec_hardware_parse(sub_type, data)
    }

    fn parse(&self, sub_type: u8, data: &[u8]) -> (r: Result<String, DecodeError>) {
        match sub_type {
            0x01 => PciParser.parse(data),
            _ => Err(DecodeError::UnknownSubType(PathType::Hardware, sub_type)),
        }
    }
}

/// The decoder for Hardware sub type 0x01, the PCI node.
pub struct PciParser;

impl DeviceSubTypeParser for PciParser {
    open spec fn decode_spec(&self, data: Seq<u8>) -> Result<Seq<char>, DecodeError> {
        spec_pci_decode(data)
    }

    fn parse(&self, data: &[u8]) -> (r: Result<String, DecodeError>) {
        if data.len() < 2 {
            return Err(DecodeError::MalformedData(MalformedKind::PciDataTooShort));
        }
        let func_num: u8 = data[0];
        let device_num: u8 = data[1];
        let mut s: String = String::from_str("Pci(");
        let func_text: String = u32_decimal(func_num as u32);
        s.append(func_text.as_str());
        s.append(",");
        let device_text: String = u32_decimal(device_num as u32);
        s.append(device_text.as_str());
        s.append(")");
        proof {
            assert(s@ =~= spec_pci_text(func_num, device_num));
        }
        Ok(s)
    }
}

} // verus!
