//! The primitives that the manifest takes from `sha2`, `ed25519-dalek` and
//! `rand_core`. Nothing in this module is proved: each function states what
//! the named outside function is relied upon to do.

use vstd::prelude::*;

verus! {

/// `sha2::Sha512`, a SHA-512 hasher; nothing is known of what is inside.
#[verifier::external_type_specification]
#[verifier::external_body]
pub struct ExSha512(sha2::Sha512);

/// `ed25519_dalek::SignatureError`, the error of the signature scheme.
#[verifier::external_type_specification]
#[verifier::external_body]
pub struct ExSignatureError(ed25519_dalek::SignatureError);

/// `rand_core::OsRng`, the random source of the operating system.
#[verifier::external_type_specification]
#[verifier::external_body]
pub struct ExOsRng(rand_core::OsRng);

/// The message that a SHA-512 hasher has been fed so far: all the bytes
/// handed to it since it was made, in order.
pub uninterp spec fn hashed(h: sha2::Sha512) -> Seq<u8>;

/// The SHA-512/256 digest of `data`.
pub uninterp spec fn spec_sha512_256(data: Seq<u8>) -> [u8; 32];

/// The Ed25519 public key that belongs to the private key `secret`.
pub uninterp spec fn spec_public_key(secret: Seq<u8>) -> [u8; 32];

/// Whether the 32 bytes `key` decode to a point of the curve, which is what
/// makes them a public key.
pub uninterp spec fn spec_key_on_curve(key: Seq<u8>) -> bool;

/// The Ed25519ph signature, with an empty context, that the key pair
/// `(secret, public)` gives to the hash of the message `msg`.
pub uninterp spec fn spec_signature(secret: Seq<u8>, public: Seq<u8>, msg: Seq<u8>) -> [u8; 64];

/// Whether `sig` is accepted as an Ed25519ph signature, with an empty
/// context, of the hash of `message` under the public key `key`.
pub uninterp spec fn spec_verifies(key: Seq<u8>, message: Seq<u8>, sig: Seq<u8>) -> bool;

/// A signature is well formed when the three highest bits of its last byte
/// are clear: the scalar half then lies below 2^253.
pub open spec fn signature_well_formed(sig: Seq<u8>) -> bool {
    sig.len() == 64 && sig[63] & 0xe0 == 0
}

/// `sha2::Digest::new` for `Sha512`: a hasher that has been fed nothing.
#[verifier::external_body]
pub(crate) fn sha512_new() -> (h: sha2::Sha512)
    ensures
        hashed(h) == Seq::<u8>::empty(),
{
    sha2::Digest::new()
}

/// `sha2::Digest::update` for `Sha512`: feeds `data` to the hasher, after what
/// it was fed before.
#[verifier::external_body]
pub(crate) fn sha512_update(h: &mut sha2::Sha512, data: &[u8])
    ensures
        hashed(*final(h)) == hashed(*old(h)) + data@,
{
    sha2::Digest::update(h, data)
}

/// `sha2::Digest::digest` for `Sha512Trunc256`: hashes `data` in one call.
/// The result is a function of `data` alone.
#[verifier::external_body]
pub(crate) fn sha512_256(data: &[u8]) -> (r: [u8; 32])
    ensures
        r == spec_sha512_256(data@),
{
    <sha2::Sha512Trunc256 as sha2::Digest>::digest(data).into()
}

/// `ed25519_dalek::SecretKey::generate`: fills a fresh private key from the
/// operating system's random source. Nothing is known of the bytes. The call
/// does not return if the operating system cannot supply randomness.
#[verifier::external_body]
pub(crate) fn secret_key_generate(rng: &mut rand_core::OsRng) -> (r: [u8; 32]) {
    ed25519_dalek::SecretKey::generate(rng).to_bytes()
}

/// `ed25519_dalek::PublicKey::from(&SecretKey)`: derives the public key of a
/// private key. The result is a function of the private key alone, and, being
/// the compressed form of a curve point, it decodes to a point again.
#[verifier::external_body]
pub(crate) fn public_key_derive(secret: &[u8; 32]) -> (r: [u8; 32])
    ensures
        r == spec_public_key(secret@),
        spec_key_on_curve(r@),
{
    let secret = ed25519_dalek::SecretKey::from_bytes(secret).unwrap();
    ed25519_dalek::PublicKey::from(&secret).to_bytes()
}

/// `ed25519_dalek::PublicKey::from_bytes` on 32 bytes: succeeds exactly when
/// the bytes decode to a point of the curve.
#[verifier::external_body]
pub(crate) fn public_key_from_bytes(bytes: &[u8; 32]) -> (r: Result<
    (),
    ed25519_dalek::SignatureError,
>)
    ensures
        r is Ok <==> spec_key_on_curve(bytes@),
{
    match ed25519_dalek::PublicKey::from_bytes(bytes) {
        Ok(_) => Ok(()),
        Err(e) => Err(e),
    }
}

/// `ed25519::Signature::from_bytes` on 64 bytes: succeeds exactly when the
/// three highest bits of the last byte are clear.
#[verifier::external_body]
pub(crate) fn signature_from_bytes(bytes: &[u8; 64]) -> (r: Result<
    (),
    ed25519_dalek::SignatureError,
>)
    ensures
        r is Ok <==> signature_well_formed(bytes@),
{
    match ed25519_dalek::Signature::from_bytes(bytes) {
        Ok(_) => Ok(()),
        Err(e) => Err(e),
    }
}

/// `ed25519_dalek::Keypair::sign_prehashed` with no context. It fails only
/// for a context of more than 255 bytes, so here it succeeds. The signature
/// is a function of the key pair and the hashed message, it is well formed,
/// and where the public key is the one that belongs to the private key,
/// `verify_prehashed` accepts it for the same message.
#[verifier::external_body]
pub(crate) fn sign_prehashed(secret: &[u8; 32], public: &[u8; 32], message: sha2::Sha512) -> (r:
    Result<[u8; 64], ed25519_dalek::SignatureError>)
    requires
        spec_key_on_curve(public@),
    ensures
        r is Ok,
        r matches Ok(sig) ==> {
            &&& sig == spec_signature(secret@, public@, hashed(message))
            &&& signature_well_formed(sig@)
            &&& public@ == spec_public_key(secret@)@ ==> spec_verifies(
                public@,
                hashed(message),
                sig@,
            )
        },
{
    let keys = ed25519_dalek::Keypair {
        secret: ed25519_dalek::SecretKey::from_bytes(secret).unwrap(),
        public: ed25519_dalek::PublicKey::from_bytes(public).unwrap(),
    };
    match keys.sign_prehashed(message, None) {
        Ok(sig) => Ok(sig.to_bytes()),
        Err(e) => Err(e),
    }
}

/// `ed25519_dalek::PublicKey::verify_prehashed` with no context: whether the
/// signature is accepted is a function of the key, the hashed message and the
/// signature.
#[verifier::external_body]
pub(crate) fn verify_prehashed(key: &[u8; 32], message: sha2::Sha512, sig: &[u8; 64]) -> (r:
    Result<(), ed25519_dalek::SignatureError>)
    requires
        spec_key_on_curve(key@),
        signature_well_formed(sig@),
    ensures
        r is Ok <==> spec_verifies(key@, hashed(message), sig@),
{
    let key = ed25519_dalek::PublicKey::from_bytes(key).unwrap();
    let sig = ed25519_dalek::Signature::from_bytes(sig).unwrap();
    key.verify_prehashed(message, None, &sig)
}

} // verus!
