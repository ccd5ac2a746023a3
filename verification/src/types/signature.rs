//! The signature that a manifest carries.

use crate::codec::{bytes_eq, decode_field, encode_field, splice, CodecError};
use crate::crypto::{signature_from_bytes, signature_well_formed};
use crate::error::ManifestError;
use crate::text::{hex_text, to_hex};
use vstd::prelude::*;
use vstd::std_specs::cmp::PartialEqSpecImpl;

verus! {

/// The 64 bytes of an Ed25519 signature. Any bytes can be held; `validate`
/// tells whether they are well formed.
#[derive(Debug)]
pub struct Signature(pub [u8; 64]);

impl View for Signature {
    type V = Seq<u8>;

    open spec fn view(&self) -> Seq<u8> {
        self.0@
    }
}

impl Signature {
    /// The all-zero signature that an unsigned manifest carries.
    pub fn empty() -> (r: Self)
        ensures
            r@ == Seq::new(64, |i: int| 0u8),
    {
        let d = [0u8; 64];
        assert(d@ =~= Seq::new(64, |i: int| 0u8));
        Signature(d)
    }

    /// Fails with `InvalidSignature` unless the bytes are well formed.
    pub fn validate(&self) -> (r: Result<(), ManifestError>)
        ensures
            signature_well_formed(self@) ==> r == Ok::<(), ManifestError>(()),
            !signature_well_formed(self@) ==> r == Err::<(), ManifestError>(
                ManifestError::InvalidSignature,
            ),
    {
        match signature_from_bytes(&self.0) {
            Ok(()) => Ok(()),
            Err(_) => Err(ManifestError::InvalidSignature),
        }
    }

    /// The signature in lowercase hex, 128 characters.
    pub fn to_hex(&self) -> (s: String)
        ensures
            s@ == hex_text(self@),
    {
        to_hex(self.0.as_slice())
    }

    /// The width of the encoded signature.
    pub fn encode_len(&self) -> (r: Result<usize, CodecError>)
        ensures
            r == Ok::<usize, CodecError>(64),
    {
        Ok(64)
    }

    /// Writes the 64 bytes at the start of `buff`.
    pub fn encode(&self, buff: &mut [u8]) -> (r: Result<usize, CodecError>)
        ensures
            old(buff)@.len() >= 64 ==> r == Ok::<usize, CodecError>(64)
                && final(buff)@ == splice(old(buff)@, 0, self@),
            old(buff)@.len() < 64 ==> r == Err::<usize, CodecError>(CodecError::Length)
                && final(buff)@ == old(buff)@,
    {
        encode_field(buff, self.0.as_slice())
    }

    /// Reads a signature from the first 64 bytes of `buff`, well formed or not.
    pub fn decode(buff: &[u8]) -> (r: Result<(Self, usize), CodecError>)
        ensures
            buff@.len() >= 64 ==> r is Ok && r->Ok_0.0@ == buff@.subrange(0, 64)
                && r->Ok_0.1 == 64,
            buff@.len() < 64 ==> r == Err::<(Self, usize), CodecError>(CodecError::Length),
    {
        match decode_field::<64>(buff) {
            Ok(d) => Ok((Signature(d), 64)),
            Err(e) => Err(e),
        }
    }
}

impl Clone for Signature {
    fn clone(&self) -> (r: Self)
        ensures
            r == *self,
    {
        Signature(self.0)
    }
}

impl PartialEq for Signature {
    fn eq(&self, other: &Self) -> (r: bool) {
        bytes_eq(self.0.as_slice(), other.0.as_slice())
    }
}

impl PartialEqSpecImpl for Signature {
    open spec fn obeys_eq_spec() -> bool {
        true
    }

    open spec fn eq_spec(&self, other: &Self) -> bool {
        self@ == other@
    }
}

impl core::ops::Deref for Signature {
    type Target = [u8; 64];

    fn deref(&self) -> (r: &[u8; 64])
        ensures
            r@ == self@,
    {
        &self.0
    }
}

} // verus!
