use fwsig::types::{Checksum, PrivateKey, PublicKey};
use fwsig::{
    Flags, Manifest, ManifestBuilder, ManifestError, MetadataFormat, MANIFEST_LEN,
    MANIFEST_VERSION, TRANSIENT_KEY,
};
use rand_core::OsRng;

const SECRET_HEX: &str = "9d61b19deffd5a60ba844af492ec2cc44449c5697b326919703bac031cae7f60";

fn test_key() -> PrivateKey {
    PrivateKey::from_hex(SECRET_HEX).unwrap()
}

#[test]
fn end_to_end() {
    let m = ManifestBuilder::new()
        .app_bin(b"hello")
        .meta_bin(MetadataFormat::Json, b"{}")
        .build(Some(test_key()), &mut OsRng)
        .unwrap();

    assert_eq!(m.version, MANIFEST_VERSION);
    assert_eq!(m.app_len, 5);
    assert_eq!(m.meta_len, 2);
    assert_eq!(m.meta_kind, 1);
    assert_eq!(m.app_csum, Checksum::compute(b"hello"));
    assert_eq!(m.meta_csum, Checksum::compute(b"{}"));
    assert_eq!(
        m.app_csum.to_hex(),
        "e30d87cfa2a75db545eac4d61baf970366a8357c7f72fa95b52d0accb698f13a"
    );
    assert_eq!(
        m.meta_csum.to_hex(),
        "a6202e7635867740d52b081ffef7d187d78aa51e316ef7450de56f916e60eeb8"
    );

    let mut b = [0u8; 256];
    assert_eq!(m.encode(&mut b), Ok(MANIFEST_LEN));

    let derived = PublicKey::from(&test_key());
    assert_eq!(m.key, derived);
    assert_eq!(m.verify(&[derived]), Ok(()));
    let unrelated = PublicKey::from(&PrivateKey::from_bytes([0x17; 32]));
    assert_eq!(m.verify(&[unrelated]), Err(ManifestError::NoMatchingKey));
    assert_eq!(m.check(b"hello", b"{}"), Ok(()));

    let (m1, _) = Manifest::decode(&b).unwrap();
    assert_eq!(m1, m);
}

#[test]
fn build_needs_both_payloads() {
    assert_eq!(
        ManifestBuilder::new().build(Some(test_key()), &mut OsRng).err(),
        Some(ManifestError::MissingAppChecksum)
    );
    assert_eq!(
        ManifestBuilder::new()
            .meta_bin(MetadataFormat::Binary, b"m")
            .build(Some(test_key()), &mut OsRng)
            .err(),
        Some(ManifestError::MissingAppChecksum)
    );
    assert_eq!(
        ManifestBuilder::new().app_bin(b"a").build(Some(test_key()), &mut OsRng).err(),
        Some(ManifestError::MissingMetaChecksum)
    );
    assert_eq!(
        ManifestBuilder::new().app_bin(b"a").build(None, &mut OsRng).err(),
        Some(ManifestError::MissingMetaChecksum)
    );
}

#[test]
fn transient_flag_follows_the_key() {
    let mut builder = ManifestBuilder::new();
    builder.app_bin(b"hello").meta_bin(MetadataFormat::Binary, b"meta");

    let given = builder.build(Some(test_key()), &mut OsRng).unwrap();
    assert_eq!(given.flags & TRANSIENT_KEY, 0);
    assert!(!given.flags().is_transient_key());

    let transient = builder.build(None, &mut OsRng).unwrap();
    assert_eq!(transient.flags & TRANSIENT_KEY, TRANSIENT_KEY);
    assert!(transient.flags().is_transient_key());
    assert_ne!(transient.key, given.key);
    assert_eq!(transient.check(b"hello", b"meta"), Ok(()));
    assert_eq!(transient.verify(&[transient.key.clone()]), Ok(()));

    // A key given after a transient build clears the flag again.
    let again = builder.build(Some(test_key()), &mut OsRng).unwrap();
    assert_eq!(again.flags & TRANSIENT_KEY, 0);
    assert_eq!(again, given);
}

#[test]
fn build_overrides_the_transient_flag_of_the_caller() {
    let m = ManifestBuilder::new()
        .flags(Flags::transient_key())
        .app_bin(b"a")
        .meta_bin(MetadataFormat::Cbor, b"m")
        .build(Some(test_key()), &mut OsRng)
        .unwrap();
    assert_eq!(m.flags, 0);
    let m = ManifestBuilder::new()
        .flags(Flags::empty())
        .app_bin(b"a")
        .meta_bin(MetadataFormat::Cbor, b"m")
        .build(None, &mut OsRng)
        .unwrap();
    assert_eq!(m.flags, 1);
}

#[test]
fn transient_builds_differ() {
    let mut builder = ManifestBuilder::new();
    builder.app_bin(b"hello").meta_bin(MetadataFormat::Binary, b"meta");
    let a = builder.build(None, &mut OsRng).unwrap();
    let b = builder.build(None, &mut OsRng).unwrap();
    assert_ne!(a.key, b.key);
    assert_ne!(a.sig, b.sig);
    assert_ne!(a, b);
    assert_eq!(a.check(b"hello", b"meta"), Ok(()));
    assert_eq!(b.check(b"hello", b"meta"), Ok(()));
}

#[test]
fn build_with_key_takes_the_flag_from_the_caller() {
    let mut builder = ManifestBuilder::new();
    builder.app_bin(b"hello").meta_bin(MetadataFormat::Other, b"meta");
    let m = builder.build_with_key(test_key(), true).unwrap();
    assert_eq!(m.flags, TRANSIENT_KEY);
    assert_eq!(m.meta_kind, 0xffff);
    assert_eq!(m.key, PublicKey::from(&test_key()));
    let m = builder.build_with_key(test_key(), false).unwrap();
    assert_eq!(m.flags, 0);
    assert_eq!(
        ManifestBuilder::new().build_with_key(test_key(), false).err(),
        Some(ManifestError::MissingAppChecksum)
    );
}

#[test]
fn name_and_version_are_strict() {
    let mut builder = ManifestBuilder::new();
    builder.app_bin(b"hello").meta_bin(MetadataFormat::Binary, b"meta");
    builder.name("demo").unwrap().version("1.2.7").unwrap();
    let m = builder.build(Some(test_key()), &mut OsRng).unwrap();
    assert_eq!(m.app_name(), "demo");
    assert_eq!(m.app_version(), "1.2.7");

    assert!(builder.name(&"n".repeat(17)).is_err());
    assert!(builder.version(&"v".repeat(25)).is_err());
    // A refused name or version changes nothing.
    let again = builder.build(Some(test_key()), &mut OsRng).unwrap();
    assert_eq!(again, m);

    assert!(builder.name(&"n".repeat(16)).is_ok());
    assert!(builder.version(&"v".repeat(24)).is_ok());
    let full = builder.build(Some(test_key()), &mut OsRng).unwrap();
    assert_eq!(full.app_name(), "n".repeat(16));
    assert_eq!(full.app_version(), "v".repeat(24));
}

#[test]
fn new_builder_is_empty() {
    let m = ManifestBuilder::new()
        .app_bin(b"")
        .meta_bin(MetadataFormat::Binary, b"")
        .build(Some(test_key()), &mut OsRng)
        .unwrap();
    assert_eq!(m.version, 1);
    assert_eq!(m.flags, 0);
    assert_eq!(m.app_name.0, [0u8; 16]);
    assert_eq!(m.app_version.0, [0u8; 24]);
    assert_eq!(m.app_len, 0);
    assert_eq!(m.meta_len, 0);
    assert_eq!(m.app_csum, Checksum::compute(b""));
    assert_eq!(m.check(b"", b""), Ok(()));
    assert_eq!(ManifestBuilder::new(), ManifestBuilder::new());
}

#[test]
fn later_payloads_replace_earlier_ones() {
    let m = ManifestBuilder::new()
        .app_bin(b"first")
        .app_bin(b"second!")
        .meta_bin(MetadataFormat::Json, b"{}")
        .meta_bin(MetadataFormat::Cbor, b"\xa0")
        .build(Some(test_key()), &mut OsRng)
        .unwrap();
    assert_eq!(m.app_len, 7);
    assert_eq!(m.app_csum, Checksum::compute(b"second!"));
    assert_eq!(m.meta_kind, 2);
    assert_eq!(m.meta_len, 1);
    assert_eq!(m.meta_csum, Checksum::compute(b"\xa0"));
}

#[test]
fn metadata_length_is_cut_to_sixteen_bits() {
    let meta = vec![0x5au8; 65536 + 3];
    let m = ManifestBuilder::new()
        .app_bin(b"hello")
        .meta_bin(MetadataFormat::Binary, &meta)
        .build(Some(test_key()), &mut OsRng)
        .unwrap();
    assert_eq!(m.meta_len, 3);
    assert_eq!(m.meta_csum, Checksum::compute(&meta));
    // The payload no longer has the length that the manifest records.
    assert_eq!(m.check(b"hello", &meta), Err(fwsig::VerifyError::MetaLengthMismatch));
}

#[test]
fn failed_build_changes_nothing() {
    // No payload at all, then each payload alone; with a key and without.
    let mut none = ManifestBuilder::new();
    let mut app_only = ManifestBuilder::new();
    app_only.app_bin(b"hello");
    let mut meta_only = ManifestBuilder::new();
    meta_only.meta_bin(MetadataFormat::Json, b"{}");
    for b in [&mut none, &mut app_only, &mut meta_only] {
        let b0 = b.clone();
        assert!(b.build(None, &mut OsRng).is_err());
        assert_eq!(*b, b0);
        assert!(b.build(Some(test_key()), &mut OsRng).is_err());
        assert_eq!(*b, b0);
        assert!(b.build_with_key(test_key(), true).is_err());
        assert_eq!(*b, b0);
        assert!(b.build_with_key(test_key(), false).is_err());
        assert_eq!(*b, b0);
    }
}

#[test]
fn failed_build_keeps_the_flags_of_the_caller() {
    // A failed build with a key does not clear the flag that the caller set.
    let mut b = ManifestBuilder::new();
    b.flags(Flags::transient_key());
    let b0 = b.clone();
    assert_eq!(
        b.build(Some(test_key()), &mut OsRng).err(),
        Some(ManifestError::MissingAppChecksum)
    );
    assert_eq!(b, b0);
    // A failed build without a key does not set the flag on an empty builder.
    let mut e = ManifestBuilder::new();
    assert_eq!(e.build(None, &mut OsRng).err(), Some(ManifestError::MissingAppChecksum));
    assert_eq!(e, ManifestBuilder::new());
}

#[test]
fn successful_build_keeps_the_flag_in_the_builder() {
    let mut b = ManifestBuilder::new();
    b.app_bin(b"hello").meta_bin(MetadataFormat::Binary, b"meta");
    let fresh = b.clone();
    b.build(None, &mut OsRng).unwrap();
    assert_ne!(b, fresh);
    let mut expected = fresh.clone();
    expected.flags(Flags::transient_key());
    assert_eq!(b, expected);
    b.build(Some(test_key()), &mut OsRng).unwrap();
    assert_eq!(b, fresh);
}
