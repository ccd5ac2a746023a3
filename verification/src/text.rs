//! Text forms of byte strings: lowercase hex for keys and checksums, and
//! UTF-8 for the fixed-width text fields.

use vstd::prelude::*;
use vstd::string::StringSliceAdditionalSpecFns;
use vstd::utf8::{encode_utf8, is_ascii_chars, is_ascii_chars_encode_utf8, valid_utf8};

verus! {

/// `hex::FromHexError`, why text is no hex text.
#[verifier::external_type_specification]
#[verifier::external_body]
pub struct ExFromHexError(hex::FromHexError);

/// `core::str::Utf8Error`, why bytes are no UTF-8.
#[verifier::external_type_specification]
#[verifier::external_body]
pub struct ExUtf8Error(core::str::Utf8Error);

/// The lowercase hex digit for a number below 16.
pub open spec fn hex_char(n: int) -> char {
    if n < 10 {
        (48 + n) as char
    } else {
        (87 + n) as char
    }
}

/// The lowercase hex text of `bytes`: two digits for each byte, the high half
/// first.
pub open spec fn hex_text(bytes: Seq<u8>) -> Seq<char> {
    Seq::new(
        2 * bytes.len(),
        |i: int|
            if i % 2 == 0 {
                hex_char(bytes[i / 2] as int / 16)
            } else {
                hex_char(bytes[i / 2] as int % 16)
            },
    )
}

/// What a character stands for as a hex digit, in either case; -1 for any
/// other character.
pub open spec fn hex_value(c: u8) -> int {
    if 48 <= c <= 57 {
        c - 48
    } else if 97 <= c <= 102 {
        c - 87
    } else if 65 <= c <= 70 {
        c - 55
    } else {
        -1
    }
}

/// Whether `data` is the hex text of some `n` bytes.
pub open spec fn is_hex(data: Seq<u8>, n: nat) -> bool {
    &&& data.len() == 2 * n
    &&& forall|i: int| 0 <= i < data.len() ==> hex_value(#[trigger] data[i]) >= 0
}

/// The bytes that the hex text `data` stands for.
pub open spec fn hex_bytes(data: Seq<u8>) -> Seq<u8> {
    Seq::new(
        data.len() / 2,
        |i: int| (16 * hex_value(data[2 * i]) + hex_value(data[2 * i + 1])) as u8,
    )
}

/// `hex::decode_to_slice`: succeeds exactly when `data` holds two hex digits,
/// of either case, for each byte of `out`, and then fills `out` with the
/// bytes they stand for. After a failure `out` may be partly written.
#[verifier::external_body]
pub(crate) fn hex_decode_to_slice<const N: usize>(data: &[u8], out: &mut [u8; N]) -> (r: Result<
    (),
    hex::FromHexError,
>)
    ensures
        r is Ok <==> is_hex(data@, N as nat),
        r is Ok ==> final(out)@ == hex_bytes(data@),
{
    hex::decode_to_slice(data, out)
}

/// `core::str::from_utf8`: succeeds exactly when the bytes are valid UTF-8,
/// and the text it returns consists of those bytes.
#[verifier::external_body]
pub(crate) fn str_from_utf8<'a>(bytes: &'a [u8]) -> (r: Result<&'a str, core::str::Utf8Error>)
    ensures
        r is Ok <==> valid_utf8(bytes@),
        r matches Ok(s) ==> s.spec_bytes() == bytes@,
{
    core::str::from_utf8(bytes)
}

/// `String::push`: appends one character.
#[verifier::external_body]
pub(crate) fn string_push(s: &mut String, c: char)
    ensures
        final(s)@ == old(s)@.push(c),
{
    s.push(c)
}

/// The lowercase hex digit for a number below 16.
fn hex_digit(n: u8) -> (c: char)
    requires
        n < 16,
    ensures
        c == hex_char(n as int),
{
    if n < 10 {
        (48 + n) as char
    } else {
        (87 + n) as char
    }
}

/// The lowercase hex text of `bytes`.
pub fn to_hex(bytes: &[u8]) -> (s: String)
    ensures
        s@ == hex_text(bytes@),
{
    let mut s = String::new();
    let n = bytes.len();
    let mut i: usize = 0;
    while i < n
        invariant
            i <= n,
            n == bytes@.len(),
            s@.len() == 2 * i,
            forall|j: int| 0 <= j < 2 * i ==> s@[j] == hex_text(bytes@)[j],
        decreases n - i,
    {
        let b = bytes[i];
        string_push(&mut s, hex_digit(b / 16));
        string_push(&mut s, hex_digit(b % 16));
        i += 1;
    }
    assert(s@ =~= hex_text(bytes@));
    s
}

/// Texts with the same UTF-8 bytes are the same text.
pub proof fn lemma_utf8_injective(a: Seq<char>, b: Seq<char>)
    requires
        encode_utf8(a) == encode_utf8(b),
    ensures
        a == b,
{
    vstd::utf8::encode_utf8_decode_utf8(a);
    vstd::utf8::encode_utf8_decode_utf8(b);
}

/// Hex text is ASCII, so its UTF-8 bytes are its characters one for one;
/// they are accepted as hex text of as many bytes, and stand for the bytes
/// they were made from.
pub proof fn lemma_hex_round_trip(bytes: Seq<u8>)
    ensures
        is_hex(encode_utf8(hex_text(bytes)), bytes.len()),
        hex_bytes(encode_utf8(hex_text(bytes))) == bytes,
{
    let chars = hex_text(bytes);
    assert(is_ascii_chars(chars));
    is_ascii_chars_encode_utf8(chars);
    let data = encode_utf8(chars);
    assert forall|i: int| 0 <= i < data.len() implies hex_value(#[trigger] data[i]) >= 0 && (i % 2
        == 0 ==> hex_value(data[i]) == bytes[i / 2] as int / 16) && (i % 2 != 0 ==> hex_value(
        data[i],
    ) == bytes[i / 2] as int % 16) by {
        assert(data[i] == chars[i] as u8);
    }
    assert forall|k: int| 0 <= k < bytes.len() implies hex_bytes(data)[k] == bytes[k] by {
        assert(hex_value(data[2 * k]) == bytes[k] as int / 16);
        assert(hex_value(data[2 * k + 1]) == bytes[k] as int % 16);
    }
    assert(hex_bytes(data) =~= bytes);
}

} // verus!
