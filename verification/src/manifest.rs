//! The manifest: its fields, its fixed layout, and how it is signed and
//! checked.

use crate::codec::{
    from_le16, from_le32, le16, le32, lemma_le16_read, lemma_le16_written, lemma_le32_read,
    lemma_le32_written, put_field, read_array, splice, u16_from_le, u16_to_le, u32_from_le,
    u32_to_le, CodecError,
};
use crate::crypto::{
    hashed, sha512_new, sha512_update, sign_prehashed, signature_well_formed, spec_key_on_curve,
    spec_public_key, spec_sha512_256, spec_signature, spec_verifies, verify_prehashed,
};
use crate::error::{ManifestError, VerifyError};
use crate::flags::{Flags, TRANSIENT_KEY};
use crate::types::keys::lemma_key_len;
use crate::types::stringish::text_of;
use crate::types::{Checksum, PrivateKey, PublicKey, Signature, Stringish};
use vstd::prelude::*;
use vstd::std_specs::cmp::PartialEqSpecImpl;

verus! {

/// The version that this library writes into a manifest.
pub const MANIFEST_VERSION: u16 = 0x0001;

/// The length of an encoded manifest: the widths of its fields, in order.
pub const MANIFEST_LEN: usize = 2 + 2 + 16 + 24 + 4 + 32 + 2 + 2 + 32 + 32 + 64;

/// The length of the part of an encoded manifest that the signature covers:
/// everything before the signature.
pub const SIGNED_LEN: usize = 2 + 2 + 16 + 24 + 4 + 32 + 2 + 2 + 32 + 32;

/// What a manifest holds, as numbers and byte strings.
pub struct ManifestView {
    pub version: u16,
    pub flags: u16,
    pub app_name: Seq<u8>,
    pub app_version: Seq<u8>,
    pub app_len: u32,
    pub app_csum: Seq<u8>,
    pub meta_kind: u16,
    pub meta_len: u16,
    pub meta_csum: Seq<u8>,
    pub key: Seq<u8>,
    pub sig: Seq<u8>,
}

impl ManifestView {
    /// Every field has the width that the layout gives it.
    pub open spec fn wf(self) -> bool {
        &&& self.app_name.len() == 16
        &&& self.app_version.len() == 24
        &&& self.app_csum.len() == 32
        &&& self.meta_csum.len() == 32
        &&& self.key.len() == 32
        &&& self.sig.len() == 64
    }

    /// The bytes that the signature covers: every field but the signature,
    /// in order, numbers little-endian.
    pub open spec fn signed_bytes(self) -> Seq<u8> {
        le16(self.version) + le16(self.flags) + self.app_name + self.app_version + le32(
            self.app_len,
        ) + self.app_csum + le16(self.meta_kind) + le16(self.meta_len) + self.meta_csum + self.key
    }

    /// The encoded manifest: the signed bytes, then the signature.
    pub open spec fn encoding(self) -> Seq<u8> {
        self.signed_bytes() + self.sig
    }

    /// The manifest after it has been signed with the private key `secret`:
    /// the key is the public key of `secret`, and the signature is the one
    /// that the key pair gives to the signed bytes, the new key among them.
    pub open spec fn signed_by(self, secret: Seq<u8>) -> ManifestView {
        let keyed = ManifestView { key: spec_public_key(secret)@, ..self };
        ManifestView { sig: spec_signature(secret, keyed.key, keyed.signed_bytes())@, ..keyed }
    }

    /// The signature is well formed and is accepted, under the manifest's
    /// own key, for the manifest's signed bytes.
    pub open spec fn authentic(self) -> bool {
        &&& signature_well_formed(self.sig)
        &&& spec_verifies(self.key, self.signed_bytes(), self.sig)
    }

    /// What the trust check says, given whether the manifest's key is among
    /// the allowed keys.
    pub open spec fn trust(self, listed: bool) -> Result<(), ManifestError> {
        trust_verdict_of(
            listed,
            signature_well_formed(self.sig),
            spec_verifies(self.key, self.signed_bytes(), self.sig),
        )
    }

    /// What the check of the application payload says of a payload with the
    /// given length and checksum: the length is compared first.
    pub open spec fn app_verdict(self, app_len: nat, app_csum: Seq<u8>) -> Result<(), VerifyError> {
        if app_len != self.app_len {
            Err(VerifyError::AppLengthMismatch)
        } else if app_csum != self.app_csum {
            Err(VerifyError::AppChecksumMismatch)
        } else {
            Ok(())
        }
    }

    /// What the check of the metadata payload says of a payload with the
    /// given length and checksum: the length is compared first.
    pub open spec fn meta_verdict(self, meta_len: nat, meta_csum: Seq<u8>) -> Result<
        (),
        VerifyError,
    > {
        if meta_len != self.meta_len {
            Err(VerifyError::MetaLengthMismatch)
        } else if meta_csum != self.meta_csum {
            Err(VerifyError::MetaChecksumMismatch)
        } else {
            Ok(())
        }
    }

    /// What the check of both payloads says: the application first, then the
    /// metadata.
    pub open spec fn payload_verdict(
        self,
        app_len: nat,
        app_csum: Seq<u8>,
        meta_len: nat,
        meta_csum: Seq<u8>,
    ) -> Result<(), VerifyError> {
        if self.app_verdict(app_len, app_csum) is Err {
            self.app_verdict(app_len, app_csum)
        } else {
            self.meta_verdict(meta_len, meta_csum)
        }
    }

    /// What the integrity check says: the manifest's own signature first,
    /// then the payloads.
    pub open spec fn integrity(
        self,
        app_len: nat,
        app_csum: Seq<u8>,
        meta_len: nat,
        meta_csum: Seq<u8>,
    ) -> Result<(), VerifyError> {
        if !self.authentic() {
            Err(VerifyError::InvalidSignature)
        } else {
            self.payload_verdict(app_len, app_csum, meta_len, meta_csum)
        }
    }
}

/// The outcome of the trust check: the key must be among the allowed keys,
/// then the signature must be well formed, then it must be accepted.
pub open spec fn trust_verdict_of(listed: bool, well_formed: bool, verified: bool) -> Result<
    (),
    ManifestError,
> {
    if !listed {
        Err(ManifestError::NoMatchingKey)
    } else if !well_formed {
        Err(ManifestError::InvalidSignature)
    } else if !verified {
        Err(ManifestError::VerificationFailed)
    } else {
        Ok(())
    }
}

/// Whether one of `keys` has the bytes `key`.
pub open spec fn key_listed(keys: Seq<PublicKey>, key: Seq<u8>) -> bool {
    exists|i: int| 0 <= i < keys.len() && (#[trigger] keys[i])@ == key
}

/// The manifest that the first `MANIFEST_LEN` bytes of `bytes` encode, if
/// there are that many and the key among them decodes to a point of the curve.
pub open spec fn decoding(bytes: Seq<u8>) -> Option<ManifestView> {
    if bytes.len() < MANIFEST_LEN || !spec_key_on_curve(bytes.subrange(116, 148)) {
        None
    } else {
        Some(
            ManifestView {
                version: from_le16(bytes.subrange(0, 2)),
                flags: from_le16(bytes.subrange(2, 4)),
                app_name: bytes.subrange(4, 20),
                app_version: bytes.subrange(20, 44),
                app_len: from_le32(bytes.subrange(44, 48)),
                app_csum: bytes.subrange(48, 80),
                meta_kind: from_le16(bytes.subrange(80, 82)),
                meta_len: from_le16(bytes.subrange(82, 84)),
                meta_csum: bytes.subrange(84, 116),
                key: bytes.subrange(116, 148),
                sig: bytes.subrange(148, 212),
            },
        )
    }
}

/// A manifest: what it says of the application and its metadata, the key
/// that vouches for it, and the signature.
#[derive(Debug)]
pub struct Manifest {
    /// Manifest version.
    pub version: u16,
    /// Flag bits.
    pub flags: u16,
    /// Application name, zero-padded UTF-8.
    pub app_name: Stringish<16>,
    /// Application version, zero-padded UTF-8.
    pub app_version: Stringish<24>,
    /// Length of the application payload.
    pub app_len: u32,
    /// Checksum of the application payload.
    pub app_csum: Checksum,
    /// Number of the metadata format.
    pub meta_kind: u16,
    /// Length of the metadata payload.
    pub meta_len: u16,
    /// Checksum of the metadata payload.
    pub meta_csum: Checksum,
    /// The public key of the signer.
    pub key: PublicKey,
    /// The signature over every other field.
    pub sig: Signature,
}

impl View for Manifest {
    type V = ManifestView;

    open spec fn view(&self) -> ManifestView {
        ManifestView {
            version: self.version,
            flags: self.flags,
            app_name: self.app_name@,
            app_version: self.app_version@,
            app_len: self.app_len,
            app_csum: self.app_csum@,
            meta_kind: self.meta_kind,
            meta_len: self.meta_len,
            meta_csum: self.meta_csum@,
            key: self.key@,
            sig: self.sig@,
        }
    }
}

impl Manifest {
    /// Feeds a SHA-512 hasher every field but the signature, in the order of
    /// the layout. The hasher has then been fed exactly the bytes that stand
    /// before the signature in the encoded manifest.
    pub fn digest(&self) -> (h: sha2::Sha512)
        ensures
            hashed(h) == self@.signed_bytes(),
            hashed(h) == self@.encoding().subrange(0, SIGNED_LEN as int),
    {
        let mut h = sha512_new();
        sha512_update(&mut h, u16_to_le(self.version).as_slice());
        sha512_update(&mut h, u16_to_le(self.flags).as_slice());
        sha512_update(&mut h, self.app_name.0.as_slice());
        sha512_update(&mut h, self.app_version.0.as_slice());
        sha512_update(&mut h, u32_to_le(self.app_len).as_slice());
        sha512_update(&mut h, self.app_csum.0.as_slice());
        sha512_update(&mut h, u16_to_le(self.meta_kind).as_slice());
        sha512_update(&mut h, u16_to_le(self.meta_len).as_slice());
        sha512_update(&mut h, self.meta_csum.0.as_slice());
        sha512_update(&mut h, self.key.as_bytes().as_slice());
        assert(hashed(h) =~= self@.signed_bytes());
        proof {
            lemma_view_wf(*self);
            lemma_encoding_layout(self@);
        }
        h
    }

    /// Signs the manifest: writes the public key of `signing_key` into `key`
    /// and, over every field but the signature, that key included, the
    /// Ed25519ph signature into `sig`. The signed manifest is authentic, and
    /// the trust check accepts it wherever its key is allowed.
    pub fn sign(&mut self, signing_key: PrivateKey) -> (r: Result<(), ManifestError>)
        ensures
            r == Ok::<(), ManifestError>(()),
            final(self)@ == old(self)@.signed_by(signing_key@),
            final(self)@.authentic(),
            final(self)@.trust(true) == Ok::<(), ManifestError>(()),
    {
        self.key = PublicKey::from_private(&signing_key);
        let digest = self.digest();
        match sign_prehashed(signing_key.as_bytes(), self.key.as_bytes(), digest) {
            Ok(sig) => {
                self.sig = Signature(sig);
                Ok(())
            },
            Err(_) => Err(ManifestError::SigningFailed),
        }
    }

    /// The trust check: the manifest's key must be one of `allowed_keys`
    /// (`NoMatchingKey`), the signature well formed (`InvalidSignature`) and
    /// accepted under that key for the manifest's signed bytes
    /// (`VerificationFailed`).
    pub fn verify(&self, allowed_keys: &[PublicKey]) -> (r: Result<(), ManifestError>)
        ensures
            r == self@.trust(key_listed(allowed_keys@, self.key@)),
    {
        let listed = contains_key(allowed_keys, &self.key);
        let well_formed = listed && self.sig.validate().is_ok();
        let verified = well_formed && verify_prehashed(
            self.key.as_bytes(),
            self.digest(),
            &self.sig.0,
        ).is_ok();
        trust_verdict(listed, well_formed, verified)
    }

    /// Whether the manifest's signature holds under the manifest's own key.
    /// This says nothing of whose key that is.
    pub fn check_sig(&self) -> (r: Result<(), VerifyError>)
        ensures
            self@.authentic() ==> r == Ok::<(), VerifyError>(()),
            !self@.authentic() ==> r == Err::<(), VerifyError>(VerifyError::InvalidSignature),
    {
        if self.sig.validate().is_err() {
            return Err(VerifyError::InvalidSignature);
        }
        let digest = self.digest();
        match verify_prehashed(self.key.as_bytes(), digest, &self.sig.0) {
            Ok(()) => Ok(()),
            Err(_) => Err(VerifyError::InvalidSignature),
        }
    }

    /// Whether an application payload of the given length and checksum is
    /// the one the manifest speaks of.
    pub fn check_app(&self, app_len: usize, app_csum: &Checksum) -> (r: Result<(), VerifyError>)
        ensures
            r == self@.app_verdict(app_len as nat, app_csum@),
    {
        if app_len != self.app_len() {
            return Err(VerifyError::AppLengthMismatch);
        }
        if !(*app_csum == self.app_csum) {
            return Err(VerifyError::AppChecksumMismatch);
        }
        Ok(())
    }

    /// Whether a metadata payload of the given length and checksum is the
    /// one the manifest speaks of.
    pub fn check_meta(&self, meta_len: usize, meta_csum: &Checksum) -> (r: Result<
        (),
        VerifyError,
    >)
        ensures
            r == self@.meta_verdict(meta_len as nat, meta_csum@),
    {
        if meta_len != self.meta_len() {
            return Err(VerifyError::MetaLengthMismatch);
        }
        if !(*meta_csum == self.meta_csum) {
            return Err(VerifyError::MetaChecksumMismatch);
        }
        Ok(())
    }

    /// The integrity check on payloads whose lengths and checksums were
    /// computed elsewhere: the manifest's own signature, then the
    /// application, then the metadata; the first failure is reported.
    pub fn check_precomputed(
        &self,
        app_csum: &Checksum,
        app_len: usize,
        meta_csum: &Checksum,
        meta_len: usize,
    ) -> (r: Result<(), VerifyError>)
        ensures
            r == self@.integrity(app_len as nat, app_csum@, meta_len as nat, meta_csum@),
    {
        self.check_sig()?;
        self.check_app(app_len, app_csum)?;
        self.check_meta(meta_len, meta_csum)
    }

    /// The integrity check on the payloads themselves. A payload of the
    /// wrong length is refused before it is hashed.
    pub fn check(&self, app: &[u8], meta: &[u8]) -> (r: Result<(), VerifyError>)
        ensures
            r == self@.integrity(
                app@.len(),
                spec_sha512_256(app@)@,
                meta@.len(),
                spec_sha512_256(meta@)@,
            ),
    {
        self.check_sig()?;
        if app.len() != self.app_len() {
            return Err(VerifyError::AppLengthMismatch);
        }
        self.check_app(app.len(), &Checksum::compute(app))?;
        if meta.len() != self.meta_len() {
            return Err(VerifyError::MetaLengthMismatch);
        }
        self.check_meta(meta.len(), &Checksum::compute(meta))
    }

    /// The length of the encoded manifest.
    pub fn encode_len(&self) -> (r: Result<usize, CodecError>)
        ensures
            r == Ok::<usize, CodecError>(MANIFEST_LEN),
    {
        Ok(MANIFEST_LEN)
    }

    /// Writes the encoded manifest at the start of `buff` and returns its
    /// length; what stands behind it in `buff` stays. What was written
    /// decodes to this manifest again. Fails, leaving `buff` as it was, where
    /// `buff` is shorter than `MANIFEST_LEN`.
    pub fn encode(&self, buff: &mut [u8]) -> (r: Result<usize, CodecError>)
        ensures
            old(buff)@.len() >= MANIFEST_LEN ==> r == Ok::<usize, CodecError>(MANIFEST_LEN)
                && final(buff)@ == splice(old(buff)@, 0, self@.encoding()),
            old(buff)@.len() >= MANIFEST_LEN ==> decoding(final(buff)@) == Some(self@),
            old(buff)@.len() < MANIFEST_LEN ==> r == Err::<usize, CodecError>(CodecError::Length)
                && final(buff)@ == old(buff)@,
    {
        if buff.len() < MANIFEST_LEN {
            return Err(CodecError::Length);
        }
        let ghost before = buff@;
        let at = put_field(buff, 0, u16_to_le(self.version).as_slice());
        let at = put_field(buff, at, u16_to_le(self.flags).as_slice());
        let at = put_field(buff, at, self.app_name.0.as_slice());
        let at = put_field(buff, at, self.app_version.0.as_slice());
        let at = put_field(buff, at, u32_to_le(self.app_len).as_slice());
        let at = put_field(buff, at, self.app_csum.0.as_slice());
        let at = put_field(buff, at, u16_to_le(self.meta_kind).as_slice());
        let at = put_field(buff, at, u16_to_le(self.meta_len).as_slice());
        let at = put_field(buff, at, self.meta_csum.0.as_slice());
        let at = put_field(buff, at, self.key.as_bytes().as_slice());
        let at = put_field(buff, at, self.sig.0.as_slice());
        proof {
            assert(before.subrange(0, 0) =~= Seq::<u8>::empty());
            assert(buff@.subrange(0, at as int) =~= self@.encoding());
            assert forall|j: int| 0 <= j < at implies buff@[j] == self@.encoding()[j] by {
                assert(buff@.subrange(0, at as int)[j] == buff@[j]);
            }
            assert(buff@ =~= splice(before, 0, self@.encoding()));
            lemma_view_wf(*self);
            lemma_decode_encode(self@);
            assert(buff@.subrange(0, MANIFEST_LEN as int) =~= self@.encoding());
            lemma_decoding_reads_prefix(buff@);
        }
        Ok(at)
    }

    /// The encoded manifest.
    pub fn to_bytes(&self) -> (r: [u8; MANIFEST_LEN])
        ensures
            r@ == self@.encoding(),
    {
        let mut r = [0u8; MANIFEST_LEN];
        let ghost before = r@;
        let _ = self.encode(&mut r);
        proof {
            lemma_view_wf(*self);
            lemma_encoding_layout(self@);
            assert(before.len() == MANIFEST_LEN);
            assert(splice(before, 0, self@.encoding()) =~= self@.encoding());
        }
        r
    }

    /// Reads a manifest from the first `MANIFEST_LEN` bytes of `buff` and
    /// returns it with that length. Fails where `buff` is shorter, or where
    /// the bytes of the key do not decode to a point of the curve. The
    /// version is not examined.
    pub fn decode(buff: &[u8]) -> (r: Result<(Manifest, usize), CodecError>)
        ensures
            decoding(buff@) is Some ==> r is Ok && r->Ok_0.0@ == decoding(buff@)->Some_0
                && r->Ok_0.1 == MANIFEST_LEN,
            decoding(buff@) is None ==> r == Err::<(Manifest, usize), CodecError>(
                CodecError::Length,
            ),
    {
        if buff.len() < MANIFEST_LEN {
            return Err(CodecError::Length);
        }
        let key = match PublicKey::from_bytes(&read_array::<32>(buff, 116)) {
            Ok(key) => key,
            Err(_) => {
                return Err(CodecError::Length);
            },
        };
        let m = Manifest {
            version: u16_from_le(buff, 0),
            flags: u16_from_le(buff, 2),
            app_name: Stringish(read_array::<16>(buff, 4)),
            app_version: Stringish(read_array::<24>(buff, 20)),
            app_len: u32_from_le(buff, 44),
            app_csum: Checksum(read_array::<32>(buff, 48)),
            meta_kind: u16_from_le(buff, 80),
            meta_len: u16_from_le(buff, 82),
            meta_csum: Checksum(read_array::<32>(buff, 84)),
            key,
            sig: Signature(read_array::<64>(buff, 148)),
        };
        Ok((m, MANIFEST_LEN))
    }

    /// The flags of the manifest; bits that stand for no flag are dropped.
    pub fn flags(&self) -> (r: Flags)
        ensures
            r@ == self.flags & TRANSIENT_KEY,
    {
        Flags::from_bits_truncate(self.flags)
    }

    /// The name of the application.
    pub fn app_name(&self) -> (r: &str)
        ensures
            r@ == text_of(self.app_name@),
    {
        self.app_name.to_text()
    }

    /// The version of the application.
    pub fn app_version(&self) -> (r: &str)
        ensures
            r@ == text_of(self.app_version@),
    {
        self.app_version.to_text()
    }

    /// The length of the application payload.
    pub fn app_len(&self) -> (r: usize)
        ensures
            r == self.app_len,
    {
        self.app_len as usize
    }

    /// The length of the metadata payload.
    pub fn meta_len(&self) -> (r: usize)
        ensures
            r == self.meta_len,
    {
        self.meta_len as usize
    }
}

impl Clone for Manifest {
    fn clone(&self) -> (r: Self)
        ensures
            r == *self,
    {
        Manifest {
            version: self.version,
            flags: self.flags,
            app_name: self.app_name.clone(),
            app_version: self.app_version.clone(),
            app_len: self.app_len,
            app_csum: self.app_csum.clone(),
            meta_kind: self.meta_kind,
            meta_len: self.meta_len,
            meta_csum: self.meta_csum.clone(),
            key: self.key.clone(),
            sig: self.sig.clone(),
        }
    }
}

impl PartialEq for Manifest {
    fn eq(&self, other: &Self) -> (r: bool) {
        self.version == other.version && self.flags == other.flags && self.app_name
            == other.app_name && self.app_version == other.app_version && self.app_len
            == other.app_len && self.app_csum == other.app_csum && self.meta_kind
            == other.meta_kind && self.meta_len == other.meta_len && self.meta_csum
            == other.meta_csum && self.key == other.key && self.sig == other.sig
    }
}

impl PartialEqSpecImpl for Manifest {
    open spec fn obeys_eq_spec() -> bool {
        true
    }

    open spec fn eq_spec(&self, other: &Self) -> bool {
        self@ == other@
    }
}

/// The outcome of the trust check, from what its three steps found.
pub fn trust_verdict(listed: bool, well_formed: bool, verified: bool) -> (r: Result<
    (),
    ManifestError,
>)
    ensures
        r == trust_verdict_of(listed, well_formed, verified),
{
    if !listed {
        Err(ManifestError::NoMatchingKey)
    } else if !well_formed {
        Err(ManifestError::InvalidSignature)
    } else if !verified {
        Err(ManifestError::VerificationFailed)
    } else {
        Ok(())
    }
}

/// Whether one of `keys` equals `key`.
pub fn contains_key(keys: &[PublicKey], key: &PublicKey) -> (r: bool)
    ensures
        r == key_listed(keys@, key@),
{
    let n = keys.len();
    let mut i: usize = 0;
    while i < n
        invariant
            i <= n,
            n == keys@.len(),
            forall|j: int| 0 <= j < i ==> (#[trigger] keys@[j])@ != key@,
        decreases n - i,
    {
        if keys[i] == *key {
            return true;
        }
        i += 1;
    }
    false
}

/// The trust check accepts a manifest whose key is among the allowed keys
/// exactly when the manifest is authentic, as every manifest is that `sign`
/// has signed: signing with a private key and then verifying against its
/// public key succeeds.
pub proof fn lemma_authentic_is_trusted(m: ManifestView)
    ensures
        m.trust(true) is Ok <==> m.authentic(),
{
}

/// A signature that is not well formed fails both checks: the trust check,
/// once the key is found among the allowed keys, with `InvalidSignature`,
/// and the manifest is not authentic.
pub proof fn lemma_malformed_signature_is_rejected(m: ManifestView)
    requires
        !signature_well_formed(m.sig),
    ensures
        m.trust(true) == Err::<(), ManifestError>(ManifestError::InvalidSignature),
        !m.authentic(),
{
}

/// A manifest whose signature is not accepted under its key for its signed
/// bytes is not authentic, and the trust check refuses it whatever the
/// allowed keys: where its key is among them, with `InvalidSignature` if the
/// signature is not well formed and with `VerificationFailed` if it is.
pub proof fn lemma_unaccepted_signature_is_rejected(m: ManifestView, listed: bool)
    ensures
        !spec_verifies(m.key, m.signed_bytes(), m.sig) ==> {
            &&& !m.authentic()
            &&& m.trust(listed) is Err
            &&& signature_well_formed(m.sig) ==> m.trust(true) == Err::<(), ManifestError>(
                ManifestError::VerificationFailed,
            )
            &&& !signature_well_formed(m.sig) ==> m.trust(true) == Err::<(), ManifestError>(
                ManifestError::InvalidSignature,
            )
        },
{
}

/// The trust check refuses, with `NoMatchingKey`, a manifest whose key is
/// none of the allowed keys, whatever its signature.
pub proof fn lemma_unlisted_key_is_rejected(m: ManifestView, keys: Seq<PublicKey>)
    requires
        forall|i: int| 0 <= i < keys.len() ==> (#[trigger] keys[i])@ != m.key,
    ensures
        m.trust(key_listed(keys, m.key)) == Err::<(), ManifestError>(ManifestError::NoMatchingKey),
{
}

/// The integrity check of an authentic manifest looks at the length of the
/// application payload before its checksum: a payload of the wrong length
/// fails with `AppLengthMismatch` whatever its checksum, and one of the right
/// length with another checksum fails with `AppChecksumMismatch`. A manifest
/// that is not authentic fails with `InvalidSignature` whatever the payloads.
pub proof fn lemma_integrity_order(
    m: ManifestView,
    app_len: nat,
    app_csum: Seq<u8>,
    meta_len: nat,
    meta_csum: Seq<u8>,
)
    ensures
        !m.authentic() ==> m.integrity(app_len, app_csum, meta_len, meta_csum) == Err::<
            (),
            VerifyError,
        >(VerifyError::InvalidSignature),
        m.authentic() && app_len != m.app_len ==> m.integrity(
            app_len,
            app_csum,
            meta_len,
            meta_csum,
        ) == Err::<(), VerifyError>(VerifyError::AppLengthMismatch),
        m.authentic() && app_len == m.app_len && app_csum != m.app_csum ==> m.integrity(
            app_len,
            app_csum,
            meta_len,
            meta_csum,
        ) == Err::<(), VerifyError>(VerifyError::AppChecksumMismatch),
        m.integrity(app_len, app_csum, meta_len, meta_csum) is Ok <==> {
            &&& m.authentic()
            &&& app_len == m.app_len
            &&& app_csum == m.app_csum
            &&& meta_len == m.meta_len
            &&& meta_csum == m.meta_csum
        },
{
}

/// What a manifest holds has, field by field, the width of the layout.
pub proof fn lemma_view_wf(m: Manifest)
    ensures
        m@.wf(),
{
    broadcast use vstd::array::array_len_matches_n;

    assert(m.app_name.0@.len() == 16);
    assert(m.app_version.0@.len() == 24);
    assert(m.app_csum.0@.len() == 32);
    assert(m.meta_csum.0@.len() == 32);
    assert(m.sig.0@.len() == 64);
    assert(m.key@.len() == 32) by {
        lemma_key_len(m.key);
    }
}

/// An encoded manifest has the fixed length `MANIFEST_LEN`, and its first
/// `SIGNED_LEN` bytes are the bytes that the signature covers: the digest
/// taken field by field is the digest of those bytes.
pub proof fn lemma_encoding_layout(m: ManifestView)
    requires
        m.wf(),
    ensures
        m.encoding().len() == MANIFEST_LEN,
        m.signed_bytes().len() == SIGNED_LEN,
        m.encoding().subrange(0, SIGNED_LEN as int) == m.signed_bytes(),
        m.encoding().subrange(SIGNED_LEN as int, MANIFEST_LEN as int) == m.sig,
{
    assert(m.encoding().subrange(0, SIGNED_LEN as int) =~= m.signed_bytes());
    assert(m.encoding().subrange(SIGNED_LEN as int, MANIFEST_LEN as int) =~= m.sig);
}

/// Decoding an encoded manifest gives the manifest back, provided its key
/// decodes to a point of the curve; where it does not, decoding fails.
pub proof fn lemma_decode_encode(m: ManifestView)
    requires
        m.wf(),
    ensures
        spec_key_on_curve(m.key) ==> decoding(m.encoding()) == Some(m),
        !spec_key_on_curve(m.key) ==> decoding(m.encoding()) is None,
{
    let e = m.encoding();
    lemma_le16_read(m.version);
    lemma_le16_read(m.flags);
    lemma_le32_read(m.app_len);
    lemma_le16_read(m.meta_kind);
    lemma_le16_read(m.meta_len);
    assert(e.subrange(0, 2) =~= le16(m.version));
    assert(e.subrange(2, 4) =~= le16(m.flags));
    assert(e.subrange(4, 20) =~= m.app_name);
    assert(e.subrange(20, 44) =~= m.app_version);
    assert(e.subrange(44, 48) =~= le32(m.app_len));
    assert(e.subrange(48, 80) =~= m.app_csum);
    assert(e.subrange(80, 82) =~= le16(m.meta_kind));
    assert(e.subrange(82, 84) =~= le16(m.meta_len));
    assert(e.subrange(84, 116) =~= m.meta_csum);
    assert(e.subrange(116, 148) =~= m.key);
    assert(e.subrange(148, 212) =~= m.sig);
}

/// The signature covers every other field: two manifests with the same
/// signed bytes differ in nothing but, at most, the signature. So a change
/// to any covered field changes the bytes against which the signature is
/// verified.
pub proof fn lemma_signature_covers_fields(a: ManifestView, b: ManifestView)
    requires
        a.wf(),
        b.wf(),
        a.signed_bytes() == b.signed_bytes(),
    ensures
        a == (ManifestView { sig: a.sig, ..b }),
{
    lemma_signed_fields(a);
    lemma_signed_fields(b);
    lemma_le16_read(a.version);
    lemma_le16_read(b.version);
    lemma_le16_read(a.flags);
    lemma_le16_read(b.flags);
    lemma_le32_read(a.app_len);
    lemma_le32_read(b.app_len);
    lemma_le16_read(a.meta_kind);
    lemma_le16_read(b.meta_kind);
    lemma_le16_read(a.meta_len);
    lemma_le16_read(b.meta_len);
}

/// Where each field stands among the signed bytes.
proof fn lemma_signed_fields(m: ManifestView)
    requires
        m.wf(),
    ensures
        m.signed_bytes().subrange(0, 2) == le16(m.version),
        m.signed_bytes().subrange(2, 4) == le16(m.flags),
        m.signed_bytes().subrange(4, 20) == m.app_name,
        m.signed_bytes().subrange(20, 44) == m.app_version,
        m.signed_bytes().subrange(44, 48) == le32(m.app_len),
        m.signed_bytes().subrange(48, 80) == m.app_csum,
        m.signed_bytes().subrange(80, 82) == le16(m.meta_kind),
        m.signed_bytes().subrange(82, 84) == le16(m.meta_len),
        m.signed_bytes().subrange(84, 116) == m.meta_csum,
        m.signed_bytes().subrange(116, 148) == m.key,
{
    let e = m.signed_bytes();
    assert(e.subrange(0, 2) =~= le16(m.version));
    assert(e.subrange(2, 4) =~= le16(m.flags));
    assert(e.subrange(4, 20) =~= m.app_name);
    assert(e.subrange(20, 44) =~= m.app_version);
    assert(e.subrange(44, 48) =~= le32(m.app_len));
    assert(e.subrange(48, 80) =~= m.app_csum);
    assert(e.subrange(80, 82) =~= le16(m.meta_kind));
    assert(e.subrange(82, 84) =~= le16(m.meta_len));
    assert(e.subrange(84, 116) =~= m.meta_csum);
    assert(e.subrange(116, 148) =~= m.key);
}

/// Decoding looks at the first `MANIFEST_LEN` bytes only.
pub proof fn lemma_decoding_reads_prefix(bytes: Seq<u8>)
    requires
        bytes.len() >= MANIFEST_LEN,
    ensures
        decoding(bytes) == decoding(bytes.subrange(0, MANIFEST_LEN as int)),
{
    let p = bytes.subrange(0, MANIFEST_LEN as int);
    assert(p.subrange(0, 2) =~= bytes.subrange(0, 2));
    assert(p.subrange(2, 4) =~= bytes.subrange(2, 4));
    assert(p.subrange(4, 20) =~= bytes.subrange(4, 20));
    assert(p.subrange(20, 44) =~= bytes.subrange(20, 44));
    assert(p.subrange(44, 48) =~= bytes.subrange(44, 48));
    assert(p.subrange(48, 80) =~= bytes.subrange(48, 80));
    assert(p.subrange(80, 82) =~= bytes.subrange(80, 82));
    assert(p.subrange(82, 84) =~= bytes.subrange(82, 84));
    assert(p.subrange(84, 116) =~= bytes.subrange(84, 116));
    assert(p.subrange(116, 148) =~= bytes.subrange(116, 148));
    assert(p.subrange(148, 212) =~= bytes.subrange(148, 212));
}

/// Encoding a decoded manifest gives back the bytes it was decoded from:
/// each manifest has one encoding.
pub proof fn lemma_encode_decode(bytes: Seq<u8>)
    requires
        decoding(bytes) is Some,
    ensures
        decoding(bytes)->Some_0.wf(),
        decoding(bytes)->Some_0.encoding() == bytes.subrange(0, MANIFEST_LEN as int),
{
    let m = decoding(bytes)->Some_0;
    lemma_le16_written(bytes.subrange(0, 2));
    lemma_le16_written(bytes.subrange(2, 4));
    lemma_le32_written(bytes.subrange(44, 48));
    lemma_le16_written(bytes.subrange(80, 82));
    lemma_le16_written(bytes.subrange(82, 84));
    assert(m.encoding() =~= bytes.subrange(0, MANIFEST_LEN as int));
}


} // verus!
