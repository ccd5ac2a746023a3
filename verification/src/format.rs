//! The formats of a metadata payload.

use crate::codec::bytes_eq;
use crate::text::lemma_utf8_injective;
use vstd::prelude::*;
use vstd::string::StringSliceAdditionalSpecFns;

verus! {

/// How the metadata payload is encoded.
#[derive(Copy, Clone, Debug, PartialEq, Eq, Structural)]
pub enum MetadataFormat {
    Binary,
    Json,
    Cbor,
    Other,
}

impl MetadataFormat {
    /// The number that stands for the format in a manifest.
    pub open spec fn spec_code(self) -> u16 {
        match self {
            MetadataFormat::Binary => 0x0000,
            MetadataFormat::Json => 0x0001,
            MetadataFormat::Cbor => 0x0002,
            MetadataFormat::Other => 0xFFFF,
        }
    }

    /// The number that stands for the format in a manifest.
    pub fn code(self) -> (r: u16)
        ensures
            r == self.spec_code(),
    {
        match self {
            MetadataFormat::Binary => 0x0000,
            MetadataFormat::Json => 0x0001,
            MetadataFormat::Cbor => 0x0002,
            MetadataFormat::Other => 0xFFFF,
        }
    }

    /// The name of the format.
    pub open spec fn spec_name(self) -> Seq<char> {
        match self {
            MetadataFormat::Binary => "Binary"@,
            MetadataFormat::Json => "Json"@,
            MetadataFormat::Cbor => "Cbor"@,
            MetadataFormat::Other => "Other"@,
        }
    }

    /// The name of the format.
    pub fn name(self) -> (r: &'static str)
        ensures
            r@ == self.spec_name(),
    {
        match self {
            MetadataFormat::Binary => "Binary",
            MetadataFormat::Json => "Json",
            MetadataFormat::Cbor => "Cbor",
            MetadataFormat::Other => "Other",
        }
    }

    /// The format of the given name, if it names one.
    pub fn from_name(name: &str) -> (r: Option<Self>)
        ensures
            r matches Some(k) ==> k.spec_name() == name@,
            r is None ==> forall|k: MetadataFormat| k.spec_name() != name@,
    {
        let b = name.as_bytes();
        if bytes_eq(b, "Binary".as_bytes()) {
            proof {
                lemma_utf8_injective(name@, "Binary"@);
            }
            Some(MetadataFormat::Binary)
        } else if bytes_eq(b, "Json".as_bytes()) {
            proof {
                lemma_utf8_injective(name@, "Json"@);
            }
            Some(MetadataFormat::Json)
        } else if bytes_eq(b, "Cbor".as_bytes()) {
            proof {
                lemma_utf8_injective(name@, "Cbor"@);
            }
            Some(MetadataFormat::Cbor)
        } else if bytes_eq(b, "Other".as_bytes()) {
            proof {
                lemma_utf8_injective(name@, "Other"@);
            }
            Some(MetadataFormat::Other)
        } else {
            None
        }
    }
}

impl core::str::FromStr for MetadataFormat {
    type Err = ();

    fn from_str(s: &str) -> (r: Result<Self, ()>)
        ensures
            r matches Ok(k) ==> k.spec_name() == s@,
            r is Err ==> forall|k: MetadataFormat| k.spec_name() != s@,
    {
        match Self::from_name(s) {
            Some(k) => Ok(k),
            None => Err(()),
        }
    }
}

} // verus!
