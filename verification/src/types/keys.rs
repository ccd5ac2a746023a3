//! Ed25519 keys as the bytes that stand for them.

use crate::codec::{bytes_eq, decode_field, encode_field, splice, CodecError};
use crate::crypto::{
    public_key_derive, public_key_from_bytes, secret_key_generate, spec_key_on_curve,
    spec_public_key,
};
use crate::error::ManifestError;
use crate::text::{hex_bytes, hex_decode_to_slice, hex_text, is_hex, to_hex};
use vstd::prelude::*;
use vstd::std_specs::cmp::PartialEqSpecImpl;
use vstd::std_specs::convert::FromSpecImpl;
use vstd::string::StringSliceAdditionalSpecFns;

verus! {

/// A private key: 32 bytes, every value of which is a key.
#[derive(Debug)]
pub struct PrivateKey {
    bytes: [u8; 32],
}

/// A public key: 32 bytes that decode to a point of the curve.
#[derive(Debug)]
pub struct PublicKey {
    bytes: [u8; 32],
}

impl View for PrivateKey {
    type V = Seq<u8>;

    closed spec fn view(&self) -> Seq<u8> {
        self.bytes@
    }
}

impl View for PublicKey {
    type V = Seq<u8>;

    closed spec fn view(&self) -> Seq<u8> {
        self.bytes@
    }
}

/// The public key that belongs to the private key with the bytes `secret`.
pub closed spec fn public_key_of(secret: Seq<u8>) -> PublicKey {
    PublicKey { bytes: spec_public_key(secret) }
}

/// The bytes of `public_key_of` are those of `spec_public_key`.
pub proof fn lemma_public_key_of(secret: Seq<u8>)
    ensures
        public_key_of(secret)@ == spec_public_key(secret)@,
{
}

/// A public key has 32 bytes.
pub proof fn lemma_key_len(key: PublicKey)
    ensures
        key@.len() == 32,
{
    broadcast use vstd::array::array_len_matches_n;

    assert(key.bytes@.len() == 32);
}

impl PrivateKey {
    /// A fresh key from the operating system's random source.
    ///
    /// # Panics
    ///
    /// Where the operating system cannot supply randomness.
    pub fn generate(rng: &mut rand_core::OsRng) -> (r: Self) {
        PrivateKey { bytes: secret_key_generate(rng) }
    }

    /// The key with the given bytes.
    pub fn from_bytes(bytes: [u8; 32]) -> (r: Self)
        ensures
            r@ == bytes@,
    {
        PrivateKey { bytes }
    }

    /// The bytes of the key.
    pub fn as_bytes(&self) -> (r: &[u8; 32])
        ensures
            r@ == self@,
    {
        &self.bytes
    }

    /// Reads a key from 64 hex digits; anything else fails with `InvalidHex`.
    pub fn from_hex(s: &str) -> (r: Result<Self, ManifestError>)
        ensures
            is_hex(s.spec_bytes(), 32) ==> r is Ok && r->Ok_0@ == hex_bytes(s.spec_bytes()),
            !is_hex(s.spec_bytes(), 32) ==> r is Err && r->Err_0 == ManifestError::InvalidHex,
    {
        let mut b = [0u8; 32];
        match hex_decode_to_slice(s.as_bytes(), &mut b) {
            Ok(()) => Ok(PrivateKey { bytes: b }),
            Err(_) => Err(ManifestError::InvalidHex),
        }
    }

    /// The key in lowercase hex, 64 characters.
    pub fn to_hex(&self) -> (s: String)
        ensures
            s@ == hex_text(self@),
    {
        to_hex(self.bytes.as_slice())
    }
}

impl Clone for PrivateKey {
    fn clone(&self) -> (r: Self)
        ensures
            r == *self,
    {
        PrivateKey { bytes: self.bytes }
    }
}

impl PartialEq for PrivateKey {
    /// Two private keys are equal when they have the same public key.
    fn eq(&self, other: &Self) -> (r: bool) {
        let a = public_key_derive(&self.bytes);
        let b = public_key_derive(&other.bytes);
        bytes_eq(a.as_slice(), b.as_slice())
    }
}

impl PartialEqSpecImpl for PrivateKey {
    open spec fn obeys_eq_spec() -> bool {
        true
    }

    open spec fn eq_spec(&self, other: &Self) -> bool {
        spec_public_key(self@)@ == spec_public_key(other@)@
    }
}

impl core::str::FromStr for PrivateKey {
    type Err = ManifestError;

    fn from_str(s: &str) -> (r: Result<Self, ManifestError>)
        ensures
            is_hex(s.spec_bytes(), 32) ==> r is Ok && r->Ok_0@ == hex_bytes(s.spec_bytes()),
            !is_hex(s.spec_bytes(), 32) ==> r is Err && r->Err_0 == ManifestError::InvalidHex,
    {
        Self::from_hex(s)
    }
}

impl PublicKey {
    #[verifier::type_invariant]
    spec fn on_curve(self) -> bool {
        spec_key_on_curve(self.bytes@)
    }

    /// The public key that belongs to the private key `key`.
    pub fn from_private(key: &PrivateKey) -> (r: Self)
        ensures
            r@ == spec_public_key(key@)@,
            r == public_key_of(key@),
    {
        PublicKey { bytes: public_key_derive(&key.bytes) }
    }

    /// The key with the given bytes; fails with `InvalidPublicKey` unless
    /// they decode to a point of the curve.
    pub fn from_bytes(bytes: &[u8; 32]) -> (r: Result<Self, ManifestError>)
        ensures
            spec_key_on_curve(bytes@) ==> r is Ok && r->Ok_0@ == bytes@,
            !spec_key_on_curve(bytes@) ==> r is Err && r->Err_0 == ManifestError::InvalidPublicKey,
    {
        match public_key_from_bytes(bytes) {
            Ok(()) => Ok(PublicKey { bytes: *bytes }),
            Err(_) => Err(ManifestError::InvalidPublicKey),
        }
    }

    /// The bytes of the key, which decode to a point of the curve.
    pub fn as_bytes(&self) -> (r: &[u8; 32])
        ensures
            r@ == self@,
            spec_key_on_curve(self@),
    {
        proof {
            use_type_invariant(self);
        }
        &self.bytes
    }

    /// Reads a key from 64 hex digits: fails with `InvalidHex` for anything
    /// else, and with `InvalidPublicKey` where the bytes they stand for do
    /// not decode to a point of the curve.
    pub fn from_hex(s: &str) -> (r: Result<Self, ManifestError>)
        ensures
            !is_hex(s.spec_bytes(), 32) ==> r is Err && r->Err_0 == ManifestError::InvalidHex,
            is_hex(s.spec_bytes(), 32) && !spec_key_on_curve(hex_bytes(s.spec_bytes())) ==> r is Err
                && r->Err_0 == ManifestError::InvalidPublicKey,
            is_hex(s.spec_bytes(), 32) && spec_key_on_curve(hex_bytes(s.spec_bytes())) ==> r is Ok
                && r->Ok_0@ == hex_bytes(s.spec_bytes()),
    {
        let mut b = [0u8; 32];
        match hex_decode_to_slice(s.as_bytes(), &mut b) {
            Ok(()) => Self::from_bytes(&b),
            Err(_) => Err(ManifestError::InvalidHex),
        }
    }

    /// The key in lowercase hex, 64 characters.
    pub fn to_hex(&self) -> (s: String)
        ensures
            s@ == hex_text(self@),
    {
        to_hex(self.bytes.as_slice())
    }

    /// The width of the encoded key.
    pub fn encode_len(&self) -> (r: Result<usize, CodecError>)
        ensures
            r == Ok::<usize, CodecError>(32),
    {
        Ok(32)
    }

    /// Writes the 32 bytes at the start of `buff`.
    pub fn encode(&self, buff: &mut [u8]) -> (r: Result<usize, CodecError>)
        ensures
            old(buff)@.len() >= 32 ==> r == Ok::<usize, CodecError>(32)
                && final(buff)@ == splice(old(buff)@, 0, self@),
            old(buff)@.len() < 32 ==> r == Err::<usize, CodecError>(CodecError::Length)
                && final(buff)@ == old(buff)@,
    {
        encode_field(buff, self.bytes.as_slice())
    }

    /// Reads a key from the first 32 bytes of `buff`; fails where there are
    /// fewer, or where they do not decode to a point of the curve.
    pub fn decode(buff: &[u8]) -> (r: Result<(Self, usize), CodecError>)
        ensures
            buff@.len() >= 32 && spec_key_on_curve(buff@.subrange(0, 32)) ==> r is Ok
                && r->Ok_0.0@ == buff@.subrange(0, 32) && r->Ok_0.1 == 32,
            buff@.len() < 32 || !spec_key_on_curve(buff@.subrange(0, 32)) ==> r == Err::<
                (Self, usize),
                CodecError,
            >(CodecError::Length),
    {
        match decode_field::<32>(buff) {
            Ok(d) => match public_key_from_bytes(&d) {
                Ok(()) => Ok((PublicKey { bytes: d }, 32)),
                Err(_) => Err(CodecError::Length),
            },
            Err(e) => Err(e),
        }
    }
}

impl Clone for PublicKey {
    fn clone(&self) -> (r: Self)
        ensures
            r == *self,
    {
        proof {
            use_type_invariant(self);
        }
        PublicKey { bytes: self.bytes }
    }
}

impl PartialEq for PublicKey {
    fn eq(&self, other: &Self) -> (r: bool) {
        bytes_eq(self.bytes.as_slice(), other.bytes.as_slice())
    }
}

impl PartialEqSpecImpl for PublicKey {
    open spec fn obeys_eq_spec() -> bool {
        true
    }

    open spec fn eq_spec(&self, other: &Self) -> bool {
        self@ == other@
    }
}

impl From<&PrivateKey> for PublicKey {
    /// The public key that belongs to a private key.
    fn from(value: &PrivateKey) -> (r: Self) {
        Self::from_private(value)
    }
}

impl FromSpecImpl<&PrivateKey> for PublicKey {
    open spec fn obeys_from_spec() -> bool {
        true
    }

    open spec fn from_spec(value: &PrivateKey) -> Self {
        public_key_of(value@)
    }
}

impl core::str::FromStr for PublicKey {
    type Err = ManifestError;

    fn from_str(s: &str) -> (r: Result<Self, ManifestError>)
        ensures
            !is_hex(s.spec_bytes(), 32) ==> r is Err && r->Err_0 == ManifestError::InvalidHex,
            is_hex(s.spec_bytes(), 32) && !spec_key_on_curve(hex_bytes(s.spec_bytes())) ==> r is Err
                && r->Err_0 == ManifestError::InvalidPublicKey,
            is_hex(s.spec_bytes(), 32) && spec_key_on_curve(hex_bytes(s.spec_bytes())) ==> r is Ok
                && r->Ok_0@ == hex_bytes(s.spec_bytes()),
    {
        Self::from_hex(s)
    }
}

} // verus!
