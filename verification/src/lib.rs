//! Signed firmware manifests: a fixed-size record that binds an application
//! binary and a metadata blob to one Ed25519 signature.
//!
//! A [`ManifestBuilder`] takes the payloads and builds a signed [`Manifest`].
//! A reader decodes a manifest, checks the payloads against it with
//! [`Manifest::check`], and checks the signer against the keys it trusts with
//! [`Manifest::verify`].

pub mod builder;
pub mod codec;
pub mod crypto;
pub mod error;
pub mod flags;
pub mod format;
pub mod manifest;
pub mod package;
pub mod text;
pub mod types;

pub use builder::ManifestBuilder;
pub use codec::CodecError;
pub use error::{ManifestError, VerifyError};
pub use flags::{Flags, TRANSIENT_KEY};
pub use format::MetadataFormat;
pub use manifest::{Manifest, MANIFEST_LEN, MANIFEST_VERSION, SIGNED_LEN};
