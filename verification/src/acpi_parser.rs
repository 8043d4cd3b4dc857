//! Type 0x02 - ACPI Device Path.  The one registered sub type is 0x01: a
//! payload of two little-endian 32-bit fields, the PNP-packed hardware id
//! `hid` and the plain unique id `uid`, rendered as
//! `ACPI({vendor letters}{device hex},{uid})`.

use vstd::prelude::*;

use crate::error::{DecodeError, MalformedKind, PathType};
use crate::text::{
    spec_decimal, spec_hex4, spec_vendor_letter, u32_decimal, u32_hex4, vendor_letter_str,
};
use crate::{DevicePathParser, DeviceSubTypeParser};

verus! {

/// The value of the four bytes of `b` at offset `i`, read little endian.
pub open spec fn spec_le_u32(b: Seq<u8>, i: int) -> int {
    b[i] + b[i + 1] * 0x100 + b[i + 2] * 0x10000 + b[i + 3] * 0x1000000
}

/// The text of an ACPI node.  The low 16 bits of `hid` pack three 5-bit
/// vendor letter fields, most significant first; the high 16 bits are the
/// device number, rendered as four upper case hex digits; `uid` is decimal.
pub open spec fn spec_acpi_text(hid: int, uid: int) -> Seq<char> {
    let vendor = hid % 0x10000;
    "ACPI("@ + seq![
        spec_vendor_letter(vendor / 0x400 % 0x20),
        spec_vendor_letter(vendor / 0x20 % 0x20),
        spec_vendor_letter(vendor % 0x20),
    ] + spec_hex4(hid / 0x10000) + ","@ + spec_decimal(uid as nat) + ")"@
}

/// The field extraction in `spec_acpi_text` is stated with division and
/// remainder; this is the same selection the protocol describes at bit
/// level: the low 16 bits of `hid` are the vendor code, its three letter
/// fields are bits 10 through 14, 5 through 9 and 0 through 4, and the
/// high 16 bits of `hid` are the device number.
pub proof fn lemma_fields_are_bit_fields(hid: u32)
    ensures
        hid % 0x10000 == hid & 0xFFFF,
        hid / 0x10000 == hid >> 16,
        (hid % 0x10000) / 0x400 % 0x20 == (hid & 0xFFFF) >> 10 & 0x1F,
        (hid % 0x10000) / 0x20 % 0x20 == (hid & 0xFFFF) >> 5 & 0x1F,
        (hid % 0x10000) % 0x20 == (hid & 0xFFFF) & 0x1F,
{
    assert(hid % 0x10000 == hid & 0xFFFF) by (bit_vector);
    assert(hid / 0x10000 == hid >> 16) by (bit_vector);
    assert((hid % 0x10000) / 0x400 % 0x20 == (hid & 0xFFFF) >> 10 & 0x1F) by (bit_vector);
    assert((hid % 0x10000) / 0x20 % 0x20 == (hid & 0xFFFF) >> 5 & 0x1F) by (bit_vector);
    assert((hid % 0x10000) % 0x20 == (hid & 0xFFFF) & 0x1F) by (bit_vector);
}

/// What an ACPI sub type 0x01 payload decodes to: its text when it holds
/// at least the eight layout bytes, the too-short error otherwise.
pub open spec fn spec_acpi_decode(data: Seq<u8>) -> Result<Seq<char>, DecodeError> {
    if data.len() < 8 {
        Err(DecodeError::MalformedData(MalformedKind::AcpiDataTooShort))
    } else {
        Ok(spec_acpi_text(spec_le_u32(data, 0), spec_le_u32(data, 4)))
    }
}

/// What the ACPI parser returns: the ACPI decode under sub type 0x01, the
/// ACPI `UnknownSubType` error under every other sub type.
pub open spec fn spec_acpi_parse(sub_type: u8, data: Seq<u8>) -> Result<Seq<char>, DecodeError> {
    if sub_type == 0x01 {
        spec_acpi_decode(data)
    } else {
        Err(DecodeError::UnknownSubType(PathType::Acpi, sub_type))
    }
}

/// The parser for Type 0x02 - ACPI Device Path.
pub struct AcpiParser;

impl DevicePathParser for AcpiParser {
    open spec fn parse_spec(&self, sub_type: u8, data: Seq<u8>) -> Result<Seq<char>, DecodeError> {
        spec_acpi_parse(sub_type, data)
    }

    fn parse(&self, sub_type: u8, data: &[u8]) -> (r: Result<String, DecodeError>) {
        match sub_type {
            0x01 => AcpiSubTypeParser.parse(data),
            _ => Err(DecodeError::UnknownSubType(PathType::Acpi, sub_type)),
        }
    }
}

/// Read the four bytes of `data` at offset `i` as a little-endian `u32`.
fn read_le_u32(data: &[u8], i: usize) -> (r: u32)
    requires
        i + 4 <= data@.len(),
    ensures
        r as int == spec_le_u32(data@, i as int),
{
    let b0: u32 = data[i] as u32;
    let b1: u32 = data[i + 1] as u32;
    let b2: u32 = data[i + 2] as u32;
    let b3: u32 = data[i + 3] as u32;
    b0 + b1 * 0x100 + b2 * 0x10000 + b3 * 0x1000000
}

/// The decoder for ACPI sub type 0x01.
pub struct AcpiSubTypeParser;

impl DeviceSubTypeParser for AcpiSubTypeParser {
    open spec fn decode_spec(&self, data: Seq<u8>) -> Result<Seq<char>, DecodeError> {
        spec_acpi_decode(data)
    }

    fn parse(&self, data: &[u8]) -> (r: Result<String, DecodeError>) {
        if data.len() < 8 {
            return Err(DecodeError::MalformedData(MalformedKind::AcpiDataTooShort));
        }
        let hid: u32 = read_le_u32(data, 0);
        let uid: u32 = read_le_u32(data, 4);

        let vendor: u32 = hid % 0x10000;
        let vendor1: u8 = (vendor / 0x400 % 0x20) as u8;
        let vendor2: u8 = (vendor / 0x20 % 0x20) as u8;
        let vendor3: u8 = (vendor % 0x20) as u8;
        let device: u32 = hid / 0x10000;

        let mut s: String = String::from_str("ACPI(");
        s.append(vendor_letter_str(vendor1));
        s.append(vendor_letter_str(vendor2));
        s.append(vendor_letter_str(vendor3));
        let device_text: String = u32_hex4(device);
        s.append(device_text.as_str());
        s.append(",");
        let uid_text: String = u32_decimal(uid);
        s.append(uid_text.as_str());
        s.append(")");
        proof {
            assert(s@ =~= spec_acpi_text(hid as int, uid as int));
        }
        Ok(s)
    }
}

} // verus!
