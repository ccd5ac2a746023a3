//! The checksum that stands for a payload.

use crate::codec::{bytes_eq, decode_field, encode_field, splice, CodecError};
use crate::crypto::{sha512_256, spec_sha512_256};
use crate::text::{hex_text, to_hex};
use vstd::prelude::*;
use vstd::std_specs::cmp::PartialEqSpecImpl;

verus! {

/// The SHA-512/256 digest of a byte string.
#[derive(Debug)]
pub struct Checksum(pub [u8; 32]);

impl View for Checksum {
    type V = Seq<u8>;

    open spec fn view(&self) -> Seq<u8> {
        self.0@
    }
}

impl Checksum {
    /// The checksum of `data`.
    pub fn compute(data: &[u8]) -> (r: Self)
        ensures
            r@ == spec_sha512_256(data@)@,
    {
        Checksum(sha512_256(data))
    }

    /// The checksum in lowercase hex, 64 characters.
    pub fn to_hex(&self) -> (s: String)
        ensures
            s@ == hex_text(self@),
    {
        to_hex(self.0.as_slice())
    }

    /// The width of the encoded checksum.
    pub fn encode_len(&self) -> (r: Result<usize, CodecError>)
        ensures
            r == Ok::<usize, CodecError>(32),
    {
        Ok(32)
    }

    /// Writes the 32 bytes at the start of `buff`.
    pub fn encode(&self, buff: &mut [u8]) -> (r: Result<usize, CodecError>)
        ensures
            old(buff)@.len() >= 32 ==> r == Ok::<usize, CodecError>(32)
                && final(buff)@ == splice(old(buff)@, 0, self@),
            old(buff)@.len() < 32 ==> r == Err::<usize, CodecError>(CodecError::Length)
                && final(buff)@ == old(buff)@,
    {
        encode_field(buff, self.0.as_slice())
    }

    /// Reads a checksum from the first 32 bytes of `buff`.
    pub fn decode(buff: &[u8]) -> (r: Result<(Self, usize), CodecError>)
        ensures
            buff@.len() >= 32 ==> r is Ok && r->Ok_0.0@ == buff@.subrange(0, 32)
                && r->Ok_0.1 == 32,
            buff@.len() < 32 ==> r == Err::<(Self, usize), CodecError>(CodecError::Length),
    {
        match decode_field::<32>(buff) {
            Ok(d) => Ok((Checksum(d), 32)),
            Err(e) => Err(e),
        }
    }
}

impl Clone for Checksum {
    fn clone(&self) -> (r: Self)
        ensures
            r == *self,
    {
        Checksum(self.0)
    }
}

impl PartialEq for Checksum {
    fn eq(&self, other: &Self) -> (r: bool) {
        bytes_eq(self.0.as_slice(), other.0.as_slice())
    }
}

impl PartialEqSpecImpl for Checksum {
    open spec fn obeys_eq_spec() -> bool {
        true
    }

    open spec fn eq_spec(&self, other: &Self) -> bool {
        self@ == other@
    }
}

impl core::ops::Deref for Checksum {
    type Target = [u8; 32];

    fn deref(&self) -> (r: &[u8; 32])
        ensures
            r@ == self@,
    {
        &self.0
    }
}

} // verus!
