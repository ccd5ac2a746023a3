use fwsig::types::stringish::INVALID_TEXT;
use fwsig::types::Stringish;
use std::ops::Deref;
use std::str::FromStr;

#[test]
fn deref() {
    let s = Stringish(*b"testing123\0\0\0\0\0\0");
    assert_eq!(s.as_ref(), "testing123");
}

#[test]
fn stringish_encode_decode() {
    let s = Stringish(*b"testing123\0\0\0\0\0\0");

    let mut b = [0xffu8; 32];
    let n = s.encode(&mut b).unwrap();

    assert_eq!(n, 16);
    assert_eq!(&b[..16], &s.0[..16]);
    assert_eq!(&b[16..], &[0xff; 16]);

    let (s1, n1) = Stringish::<16>::decode(&b[..16]).unwrap();
    assert_eq!(n1, 16);

    assert_eq!(s1, s);
}

#[test]
fn strict_round_trip() {
    let s = Stringish::<16>::from_str_strict("demo").unwrap();
    assert_eq!(s.to_text(), "demo");
    assert_eq!(s.0, *b"demo\0\0\0\0\0\0\0\0\0\0\0\0");
}

#[test]
fn strict_rejects_text_that_does_not_fit() {
    assert_eq!(Stringish::<16>::from_str_strict(&"x".repeat(17)), Err(()));
    assert_eq!(Stringish::<16>::from_str(&"x".repeat(17)), Err(()));
    assert!(Stringish::<16>::from_str_strict(&"x".repeat(16)).is_ok());
}

#[test]
fn strict_takes_text_of_full_width() {
    let s = Stringish::<16>::from_str_strict("0123456789abcdef").unwrap();
    assert_eq!(s.0, *b"0123456789abcdef");
    assert_eq!(s.to_text(), "0123456789abcdef");
}

#[test]
fn lossy_truncates_to_the_width() {
    let s = Stringish::<16>::from_str_lossy(&"x".repeat(20));
    assert_eq!(s.0, [b'x'; 16]);
    assert_eq!(s.to_text(), "x".repeat(16));
    let t: Stringish<16> = "x".repeat(20).as_str().into();
    assert_eq!(t, s);
}

#[test]
fn lossy_pads_short_text() {
    let s: Stringish<24> = "1.2.7".into();
    let mut expected = [0u8; 24];
    expected[..5].copy_from_slice(b"1.2.7");
    assert_eq!(s.0, expected);
    assert_eq!(s.to_text(), "1.2.7");
}

#[test]
fn lossy_cut_inside_a_character_reads_as_invalid() {
    // 'é' takes two bytes; the fourth byte of the field holds only its first.
    let s = Stringish::<4>::from_str_lossy("abcé");
    assert_eq!(s.0, [b'a', b'b', b'c', 0xc3]);
    assert_eq!(s.to_text(), INVALID_TEXT);
    assert_eq!(s.to_text(), "INVALID_U2F8");
}

#[test]
fn text_of_invalid_bytes_is_the_sentinel() {
    let s = Stringish([0xffu8, 0xfe, 0, 0]);
    assert_eq!(s.to_text(), "INVALID_U2F8");
}

#[test]
fn text_ends_at_the_first_zero_byte() {
    let s = Stringish(*b"ab\0cd\0\0\0");
    assert_eq!(s.to_text(), "ab");
    let empty = Stringish::<8>::default();
    assert_eq!(empty.0, [0u8; 8]);
    assert_eq!(empty.to_text(), "");
}

#[test]
fn text_keeps_characters_of_several_bytes() {
    let s = Stringish::<16>::from_str_strict("grüße €").unwrap();
    assert_eq!(s.to_text(), "grüße €");
}

#[test]
fn stringish_encode_needs_room() {
    let s = Stringish(*b"abcd");
    let mut b = [0xffu8; 3];
    assert_eq!(s.encode(&mut b), Err(fwsig::CodecError::Length));
    assert_eq!(b, [0xff; 3]);
    assert_eq!(s.encode_len(), Ok(4));
    assert!(Stringish::<4>::decode(&[1, 2, 3]).is_err());
}

#[test]
fn stringish_deref_gives_the_bytes() {
    let s = Stringish(*b"abcd");
    assert_eq!(s.deref(), b"abcd");
    assert_eq!(s.clone(), s);
}
