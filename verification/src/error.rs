//! Error kinds reported by the manifest operations.

use vstd::prelude::*;

verus! {

/// What can go wrong while building, signing or authenticating a manifest.
#[derive(Copy, Clone, PartialEq, Eq, Debug, Structural)]
pub enum ManifestError {
    /// The builder was given no application payload.
    MissingAppChecksum,
    /// The builder was given no metadata payload.
    MissingMetaChecksum,
    /// The bytes do not name a point on the curve.
    InvalidPublicKey,
    /// The bytes are not acceptable private key material.
    InvalidPrivateKey,
    /// The text is not a hex string of the expected length.
    InvalidHex,
    /// The signature scheme refused to sign the digest.
    SigningFailed,
    /// The signing key is not among the allowed keys.
    NoMatchingKey,
    /// The signature bytes are not a well-formed signature.
    InvalidSignature,
    /// The signature does not match the manifest under its key.
    VerificationFailed,
}

/// What can go wrong while checking payloads against a manifest.
#[derive(Copy, Clone, PartialEq, Eq, Debug, Structural)]
pub enum VerifyError {
    /// The application payload has another length than recorded.
    AppLengthMismatch,
    /// The application payload has another checksum than recorded.
    AppChecksumMismatch,
    /// The metadata payload has another length than recorded.
    MetaLengthMismatch,
    /// The metadata payload has another checksum than recorded.
    MetaChecksumMismatch,
    /// The manifest's own signature does not hold under its own key.
    InvalidSignature,
    /// The signature could not be verified.
    VerificationFailed,
}

} // verus!
