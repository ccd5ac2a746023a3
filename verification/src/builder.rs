//! Assembling and signing a manifest from the payloads it speaks of.

use crate::crypto::{spec_public_key, spec_sha512_256};
use crate::error::ManifestError;
use crate::flags::{
    lemma_flags_by_bits, lemma_with_transient, with_transient, Flags, TRANSIENT_KEY,
};
use crate::format::MetadataFormat;
use crate::manifest::{Manifest, ManifestView, MANIFEST_VERSION};
use crate::types::stringish::padded;
use crate::types::{Checksum, PrivateKey, PublicKey, Signature, Stringish};
use vstd::prelude::*;
use vstd::std_specs::cmp::PartialEqSpecImpl;
use vstd::string::StringSliceAdditionalSpecFns;

verus! {

/// What a builder has been told so far.
pub struct BuilderView {
    pub flags: u16,
    pub name: Seq<u8>,
    pub version: Seq<u8>,
    /// Length and checksum of the application payload.
    pub app: Option<(u32, Seq<u8>)>,
    /// Length, format and checksum of the metadata payload.
    pub meta: Option<(u16, MetadataFormat, Seq<u8>)>,
}

impl BuilderView {
    /// The builder once it has chosen its signing key: the `TRANSIENT_KEY`
    /// flag says whether the key was made for the occasion.
    pub open spec fn keyed(self, transient: bool) -> BuilderView {
        BuilderView { flags: with_transient(self.flags, transient), ..self }
    }

    /// Whether the builder has what a manifest needs: both payloads, the
    /// application looked at first.
    pub open spec fn ready(self) -> Result<(), ManifestError> {
        if self.app is None {
            Err(ManifestError::MissingAppChecksum)
        } else if self.meta is None {
            Err(ManifestError::MissingMetaChecksum)
        } else {
            Ok(())
        }
    }

    /// What building gives with the private key `secret`: the error of a
    /// builder that is not ready; else the manifest of what the builder was
    /// told, signed with `secret`.
    pub open spec fn built(self, secret: Seq<u8>, transient: bool) -> Result<
        ManifestView,
        ManifestError,
    > {
        if self.ready() is Err {
            Err(self.ready()->Err_0)
        } else {
            Ok(
                ManifestView {
                    version: MANIFEST_VERSION,
                    flags: with_transient(self.flags, transient),
                    app_name: self.name,
                    app_version: self.version,
                    app_len: self.app->Some_0.0,
                    app_csum: self.app->Some_0.1,
                    meta_kind: self.meta->Some_0.1.spec_code(),
                    meta_len: self.meta->Some_0.0,
                    meta_csum: self.meta->Some_0.2,
                    key: spec_public_key(secret)@,
                    sig: Seq::new(64, |i: int| 0u8),
                }.signed_by(secret),
            )
        }
    }
}

/// Collects what a manifest is to say, then builds and signs it.
#[derive(Debug)]
pub struct ManifestBuilder {
    flags: Flags,
    name: Stringish<16>,
    version: Stringish<24>,
    app: Option<(u32, Checksum)>,
    meta: Option<(u16, MetadataFormat, Checksum)>,
}

impl View for ManifestBuilder {
    type V = BuilderView;

    closed spec fn view(&self) -> BuilderView {
        BuilderView {
            flags: self.flags@,
            name: self.name@,
            version: self.version@,
            app: match self.app {
                Some((len, csum)) => Some((len, csum@)),
                None => None,
            },
            meta: match self.meta {
                Some((len, kind, csum)) => Some((len, kind, csum@)),
                None => None,
            },
        }
    }
}

impl Clone for ManifestBuilder {
    fn clone(&self) -> (r: Self)
        ensures
            r == *self,
    {
        ManifestBuilder {
            flags: self.flags,
            name: self.name.clone(),
            version: self.version.clone(),
            app: match &self.app {
                Some(app) => Some((app.0, app.1.clone())),
                None => None,
            },
            meta: match &self.meta {
                Some(meta) => Some((meta.0, meta.1, meta.2.clone())),
                None => None,
            },
        }
    }
}

impl PartialEq for ManifestBuilder {
    fn eq(&self, other: &Self) -> (r: bool) {
        let app = match (&self.app, &other.app) {
            (Some(a), Some(b)) => a.0 == b.0 && a.1 == b.1,
            (None, None) => true,
            _ => false,
        };
        let meta = match (&self.meta, &other.meta) {
            (Some(a), Some(b)) => a.0 == b.0 && a.1 == b.1 && a.2 == b.2,
            (None, None) => true,
            _ => false,
        };
        proof {
            lemma_flags_by_bits(self.flags, other.flags);
            assert(app == (self@.app == other@.app));
            assert(meta == (self@.meta == other@.meta));
        }
        self.flags == other.flags && self.name == other.name && self.version == other.version
            && app && meta
    }
}

impl PartialEqSpecImpl for ManifestBuilder {
    open spec fn obeys_eq_spec() -> bool {
        true
    }

    open spec fn eq_spec(&self, other: &Self) -> bool {
        self@ == other@
    }
}

impl ManifestBuilder {
    /// A builder that has been told nothing: no flags, empty name and
    /// version, no payloads.
    pub fn new() -> (r: Self)
        ensures
            r@ == (BuilderView {
                flags: 0,
                name: padded(Seq::<u8>::empty(), 16),
                version: padded(Seq::<u8>::empty(), 24),
                app: None,
                meta: None,
            }),
    {
        ManifestBuilder {
            flags: Flags::empty(),
            name: Stringish::default(),
            version: Stringish::default(),
            app: None,
            meta: None,
        }
    }

    /// Sets the flags. `build` decides `TRANSIENT_KEY` itself.
    pub fn flags(&mut self, flags: Flags) -> (r: &mut Self)
        ensures
            r@ == (BuilderView { flags: flags@, ..old(self)@ }),
            *final(self) == *final(r),
    {
        self.flags = flags;
        self
    }

    /// Sets the application name; fails, changing nothing, where it takes
    /// more than 16 bytes.
    pub fn name(&mut self, app_name: &str) -> (r: Result<&mut Self, ()>)
        ensures
            r is Ok <==> app_name.spec_bytes().len() <= 16,
            r matches Ok(b) ==> b@ == (BuilderView {
                name: padded(app_name.spec_bytes(), 16),
                ..old(self)@
            }) && *final(self) == *final(b),
            r is Err ==> *final(self) == *old(self),
    {
        match Stringish::from_str_strict(app_name) {
            Ok(name) => {
                self.name = name;
                Ok(self)
            },
            Err(e) => Err(e),
        }
    }

    /// Sets the application version; fails, changing nothing, where it takes
    /// more than 24 bytes.
    pub fn version(&mut self, app_version: &str) -> (r: Result<&mut Self, ()>)
        ensures
            r is Ok <==> app_version.spec_bytes().len() <= 24,
            r matches Ok(b) ==> b@ == (BuilderView {
                version: padded(app_version.spec_bytes(), 24),
                ..old(self)@
            }) && *final(self) == *final(b),
            r is Err ==> *final(self) == *old(self),
    {
        match Stringish::from_str_strict(app_version) {
            Ok(version) => {
                self.version = version;
                Ok(self)
            },
            Err(e) => Err(e),
        }
    }

    /// Takes the application payload: records its checksum and its length,
    /// the length cut to 32 bits.
    pub fn app_bin(&mut self, d: &[u8]) -> (r: &mut Self)
        ensures
            r@ == (BuilderView {
                app: Some((d@.len() as u32, spec_sha512_256(d@)@)),
                ..old(self)@
            }),
            *final(self) == *final(r),
    {
        self.app = Some((#[verifier::truncate] (d.len() as u32), Checksum::compute(d)));
        self
    }

    /// Takes the metadata payload: records its format, its checksum and its
    /// length, the length cut to 16 bits.
    pub fn meta_bin(&mut self, k: MetadataFormat, d: &[u8]) -> (r: &mut Self)
        ensures
            r@ == (BuilderView {
                meta: Some((d@.len() as u16, k, spec_sha512_256(d@)@)),
                ..old(self)@
            }),
            *final(self) == *final(r),
    {
        self.meta = Some((#[verifier::truncate] (d.len() as u16), k, Checksum::compute(d)));
        self
    }

    /// Whether both payloads have been given: `MissingAppChecksum` where the
    /// application is missing, else `MissingMetaChecksum` where the metadata
    /// is.
    fn ready(&self) -> (r: Result<(), ManifestError>)
        ensures
            r == self@.ready(),
    {
        if self.app.is_none() {
            Err(ManifestError::MissingAppChecksum)
        } else if self.meta.is_none() {
            Err(ManifestError::MissingMetaChecksum)
        } else {
            Ok(())
        }
    }

    /// Builds the manifest and signs it with `signing_key`. Fails, changing
    /// nothing, with `MissingAppChecksum` where no application payload was
    /// given, else with `MissingMetaChecksum` where no metadata payload was
    /// given. Otherwise `transient`, which says whether the key was made for
    /// the occasion, becomes the `TRANSIENT_KEY` flag of the manifest and of
    /// the builder.
    pub fn build_with_key(&mut self, signing_key: PrivateKey, transient: bool) -> (r: Result<
        Manifest,
        ManifestError,
    >)
        ensures
            old(self)@.built(signing_key@, transient) is Err ==> final(self)@ == old(self)@,
            old(self)@.built(signing_key@, transient) is Ok ==> final(self)@ == old(self)@.keyed(
                transient,
            ),
            match old(self)@.built(signing_key@, transient) {
                Ok(m) => r is Ok && r->Ok_0@ == m,
                Err(e) => r is Err && r->Err_0 == e,
            },
            r is Ok ==> r->Ok_0@.authentic(),
            r is Ok ==> (r->Ok_0.flags & TRANSIENT_KEY != 0) == transient,
    {
        let (app_len, app_csum) = match &self.app {
            Some(app) => (app.0, app.1.clone()),
            None => {
                return Err(ManifestError::MissingAppChecksum);
            },
        };
        let (meta_len, meta_kind, meta_csum) = match &self.meta {
            Some(meta) => (meta.0, meta.1.code(), meta.2.clone()),
            None => {
                return Err(ManifestError::MissingMetaChecksum);
            },
        };
        proof {
            lemma_with_transient(old(self)@.flags, transient);
        }
        self.flags.set_transient_key(transient);
        let mut m = Manifest {
            version: MANIFEST_VERSION,
            flags: self.flags.bits(),
            app_name: self.name.clone(),
            app_version: self.version.clone(),
            app_len,
            app_csum,
            meta_kind,
            meta_len,
            meta_csum,
            key: PublicKey::from_private(&signing_key),
            sig: Signature::empty(),
        };
        m.sign(signing_key)?;
        Ok(m)
    }

    /// Builds and signs the manifest. Fails, changing nothing and drawing no
    /// key, with `MissingAppChecksum` where no application payload was given,
    /// else with `MissingMetaChecksum` where no metadata payload was given.
    /// Otherwise, with a signing key, that key signs and `TRANSIENT_KEY` is
    /// cleared; without one, a fresh key from `rng` signs and `TRANSIENT_KEY`
    /// is set: each such call gives another manifest.
    ///
    /// # Panics
    ///
    /// Where a key is to be drawn and the operating system cannot supply
    /// randomness.
    pub fn build(&mut self, signing_key: Option<PrivateKey>, rng: &mut rand_core::OsRng) -> (r:
        Result<Manifest, ManifestError>)
        ensures
            old(self)@.ready() is Err ==> final(self)@ == old(self)@ && r is Err && r->Err_0
                == old(self)@.ready()->Err_0,
            old(self)@.ready() is Ok ==> final(self)@ == old(self)@.keyed(signing_key is None),
            signing_key matches Some(key) ==> match old(self)@.built(key@, false) {
                Ok(m) => r is Ok && r->Ok_0@ == m,
                Err(e) => r is Err && r->Err_0 == e,
            },
            signing_key is None ==> exists|secret: Seq<u8>|
                match #[trigger] old(self)@.built(secret, true) {
                    Ok(m) => r is Ok && r->Ok_0@ == m,
                    Err(e) => r is Err && r->Err_0 == e,
                },
            r is Ok ==> r->Ok_0@.authentic(),
            r is Ok ==> (r->Ok_0.flags & TRANSIENT_KEY != 0) == (signing_key is None),
    {
        match signing_key {
            Some(key) => self.build_with_key(key, false),
            None => {
                match self.ready() {
                    Ok(()) => {},
                    Err(e) => {
                        assert(old(self)@.built(Seq::<u8>::empty(), true) is Err);
                        return Err(e);
                    },
                }
                let key = PrivateKey::generate(rng);
                let ghost secret = key@;
                let r = self.build_with_key(key, true);
                assert(match old(self)@.built(secret, true) {
                    Ok(m) => r is Ok && r->Ok_0@ == m,
                    Err(e) => r is Err && r->Err_0 == e,
                });
                r
            },
        }
    }
}

} // verus!
