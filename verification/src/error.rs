//! The error taxonomy of the decoder.  The rendered message text is part of
//! the observable contract: downstream log tooling matches on it verbatim.

use vstd::prelude::*;

use crate::text::{spec_hex2, u8_hex2};

verus! {

/// The five registered major device path types.
#[derive(Clone, Copy, Debug, PartialEq, Eq, Structural)]
pub enum PathType {
    Hardware,
    Acpi,
    Messaging,
    Media,
    BiosBootSpec,
}

impl PathType {
    /// The human readable name used in `UnknownSubType` messages.
    pub open spec fn spec_name(self) -> Seq<char> {
        match self {
            PathType::Hardware => "Hardware"@,
            PathType::Acpi => "ACPI"@,
            PathType::Messaging => "Messaging"@,
            PathType::Media => "Media"@,
            PathType::BiosBootSpec => "BIOS Boot Specification"@,
        }
    }

    pub fn name(&self) -> (r: &'static str)
        ensures
            r@ == self.spec_name(),
    {
        match self {
            PathType::Hardware => "Hardware",
            PathType::Acpi => "ACPI",
            PathType::Messaging => "Messaging",
            PathType::Media => "Media",
            PathType::BiosBootSpec => "BIOS Boot Specification",
        }
    }
}

/// Which fixed-layout constraint a payload violated.
#[derive(Clone, Copy, Debug, PartialEq, Eq, Structural)]
pub enum MalformedKind {
    /// A PCI payload of fewer than 2 bytes.
    PciDataTooShort,
    /// An ACPI payload of fewer than 8 bytes.
    AcpiDataTooShort,
}

/// A failed decode.  Every layer hands the deepest error through unchanged.
#[derive(Clone, Copy, Debug, PartialEq, Eq, Structural)]
pub enum DecodeError {
    /// The major type byte has no registered parser.
    UnknownType(u8),
    /// The type is known but the sub type byte has no registered decoder
    /// under it.
    UnknownSubType(PathType, u8),
    /// Type and sub type are known but the payload violates the fixed
    /// layout for that sub type.
    MalformedData(MalformedKind),
}

impl DecodeError {
    /// The exact rendered message text.
    pub open spec fn spec_text(self) -> Seq<char> {
        match self {
            DecodeError::UnknownType(t) => "Unknown Device Path Type: 0x"@ + spec_hex2(t as int),
            DecodeError::UnknownSubType(pt, st) => "Unknown "@ + pt.spec_name() + " subtype: 0x"@
                + spec_hex2(st as int),
            DecodeError::MalformedData(k) => match k {
                MalformedKind::PciDataTooShort => "PCI data is too short"@,
                MalformedKind::AcpiDataTooShort => "ACPI sub type data length must be at least 8 bytes"@,
            },
        }
    }

    /// Render the stable message text for this error.
    pub fn render(&self) -> (s: String)
        ensures
            s@ == self.spec_text(),
    {
        match self {
            DecodeError::UnknownType(t) => {
                let mut s: String = String::from_str("Unknown Device Path Type: 0x");
                let hx: String = u8_hex2(*t);
                s.append(hx.as_str());
                proof {
                    assert(s@ =~= self.spec_text());
                }
                s
            },
            DecodeError::UnknownSubType(pt, st) => {
                let mut s: String = String::from_str("Unknown ");
                s.append(pt.name());
                s.append(" subtype: 0x");
                let hx: String = u8_hex2(*st);
                s.append(hx.as_str());
                proof {
                    assert(s@ =~= self.spec_text());
                }
                s
            },
            DecodeError::MalformedData(k) => match k {
                MalformedKind::PciDataTooShort => String::from_str("PCI data is too short"),
                MalformedKind::AcpiDataTooShort => String::from_str(
                    "ACPI sub type data length must be at least 8 bytes",
                ),
            },
        }
    }
}

} // verus!
