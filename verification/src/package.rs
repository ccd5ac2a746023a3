//! A manifest packaged with its payloads in one image: the application, the
//! metadata, then the encoded manifest, which is found again as the last
//! `MANIFEST_LEN` bytes.

use crate::codec::CodecError;
use crate::crypto::spec_key_on_curve;
use crate::manifest::{
    decoding, lemma_decode_encode, lemma_encoding_layout, Manifest, ManifestView, MANIFEST_LEN,
};
use vstd::prelude::*;

verus! {

/// The image of a manifest with its payloads.
pub open spec fn combined(app: Seq<u8>, meta: Seq<u8>, manifest: ManifestView) -> Seq<u8> {
    app + meta + manifest.encoding()
}

/// The manifest at the end of an image and the two payloads before it, as
/// long as the manifest says. There is none where the image is shorter than
/// a manifest, where its last bytes decode to no manifest, or where the
/// manifest and the two lengths it records do not make up the whole image.
pub open spec fn parts(image: Seq<u8>) -> Option<(ManifestView, Seq<u8>, Seq<u8>)> {
    if image.len() < MANIFEST_LEN {
        None
    } else {
        match decoding(image.subrange(image.len() - MANIFEST_LEN, image.len() as int)) {
            None => None,
            Some(m) => if image.len() != m.app_len + m.meta_len + MANIFEST_LEN {
                None
            } else {
                Some(
                    (
                        m,
                        image.subrange(0, m.app_len as int),
                        image.subrange(m.app_len as int, m.app_len + m.meta_len),
                    ),
                )
            },
        }
    }
}

/// Packages a manifest with its payloads.
pub fn combine(app: &[u8], meta: &[u8], manifest: &Manifest) -> (image: Vec<u8>)
    ensures
        image@ == combined(app@, meta@, manifest@),
{
    let encoded = manifest.to_bytes();
    let mut image = Vec::new();
    image.extend_from_slice(app);
    assert(image@ =~= app@);
    image.extend_from_slice(meta);
    assert(image@ =~= app@ + meta@);
    image.extend_from_slice(encoded.as_slice());
    assert(image@ =~= app@ + meta@ + encoded@);
    image
}

/// Takes an image apart: the manifest from its last `MANIFEST_LEN` bytes,
/// and before it the application and the metadata with the lengths that the
/// manifest records. The payloads are not checked against the manifest.
pub fn split<'a>(image: &'a [u8]) -> (r: Result<(Manifest, &'a [u8], &'a [u8]), CodecError>)
    ensures
        parts(image@) is Some ==> r is Ok && r->Ok_0.0@ == parts(image@)->Some_0.0 && r->Ok_0.1@
            == parts(image@)->Some_0.1 && r->Ok_0.2@ == parts(image@)->Some_0.2,
        parts(image@) is None ==> r is Err && r->Err_0 == CodecError::Length,
{
    let n = image.len();
    if n < MANIFEST_LEN {
        return Err(CodecError::Length);
    }
    let payloads = n - MANIFEST_LEN;
    let manifest = match Manifest::decode(&image[payloads..n]) {
        Ok((manifest, _)) => manifest,
        Err(e) => {
            return Err(e);
        },
    };
    let app_len = manifest.app_len();
    let meta_len = manifest.meta_len();
    if app_len > payloads || meta_len != payloads - app_len {
        return Err(CodecError::Length);
    }
    let app = &image[0..app_len];
    let meta = &image[app_len..payloads];
    Ok((manifest, app, meta))
}

/// The three parts of a concatenation are found again by their lengths.
proof fn lemma_three_parts(a: Seq<u8>, b: Seq<u8>, c: Seq<u8>)
    ensures
        (a + b + c).len() == a.len() + b.len() + c.len(),
        (a + b + c).subrange(0, a.len() as int) == a,
        (a + b + c).subrange(a.len() as int, (a.len() + b.len()) as int) == b,
        (a + b + c).subrange((a.len() + b.len()) as int, (a.len() + b.len() + c.len()) as int)
            == c,
{
    let s = a + b + c;
    let i = a.len() as int;
    let j = (a.len() + b.len()) as int;
    let k = (a.len() + b.len() + c.len()) as int;
    assert(s.subrange(0, i) =~= a);
    assert(s.subrange(i, j) =~= b);
    assert(s.subrange(j, k) =~= c);
}

/// An image is taken apart into what it was made of, provided the manifest
/// records the lengths of the payloads and its key decodes to a point of
/// the curve.
pub proof fn lemma_split_combine(app: Seq<u8>, meta: Seq<u8>, manifest: ManifestView)
    requires
        manifest.wf(),
        app.len() == manifest.app_len,
        meta.len() == manifest.meta_len,
    ensures
        spec_key_on_curve(manifest.key) ==> parts(combined(app, meta, manifest)) == Some(
            (manifest, app, meta),
        ),
        !spec_key_on_curve(manifest.key) ==> parts(combined(app, meta, manifest)) is None,
{
    let encoded = manifest.encoding();
    let image = app + meta + encoded;
    assert(encoded.len() == MANIFEST_LEN) by {
        lemma_encoding_layout(manifest);
    }
    lemma_three_parts(app, meta, encoded);
    assert(image.subrange(image.len() - MANIFEST_LEN, image.len() as int) == encoded);
    assert(spec_key_on_curve(manifest.key) ==> decoding(encoded) == Some(manifest)) by {
        lemma_decode_encode(manifest);
    }
    assert(!spec_key_on_curve(manifest.key) ==> decoding(encoded) is None) by {
        lemma_decode_encode(manifest);
    }
}

} // verus!
