//! The value types that a manifest is made of.

pub mod checksum;
pub mod keys;
pub mod signature;
pub mod stringish;

pub use checksum::Checksum;
pub use keys::{PrivateKey, PublicKey};
pub use signature::Signature;
pub use stringish::Stringish;
