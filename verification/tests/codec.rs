use fwsig::codec::{
    bytes_eq, decode_field, encode_field, put_field, read_array, u16_from_le, u16_to_le,
    u32_from_le, u32_to_le, write_at,
};
use fwsig::CodecError;

#[test]
fn little_endian_integers() {
    assert_eq!(u16_to_le(0x1234), [0x34, 0x12]);
    assert_eq!(u16_to_le(0), [0, 0]);
    assert_eq!(u16_to_le(0xffff), [0xff, 0xff]);
    assert_eq!(u32_to_le(0x0102_0304), [0x04, 0x03, 0x02, 0x01]);
    assert_eq!(u32_to_le(0xffff_ffff), [0xff; 4]);
    assert_eq!(u16_from_le(&[0xff, 0x34, 0x12], 1), 0x1234);
    assert_eq!(u32_from_le(&[0x04, 0x03, 0x02, 0x01], 0), 0x0102_0304);
}

#[test]
fn little_endian_agrees_with_std() {
    for x in [0u16, 1, 255, 256, 0x8000, 0xfffe, 0xffff] {
        assert_eq!(u16_to_le(x), x.to_le_bytes());
        assert_eq!(u16_from_le(&x.to_le_bytes(), 0), x);
    }
    for x in [0u32, 1, 255, 256, 65535, 65536, 0x00ff_ffff, 0x0100_0000, 0x8000_0000, 0xffff_ffff] {
        assert_eq!(u32_to_le(x), x.to_le_bytes());
        assert_eq!(u32_from_le(&x.to_le_bytes(), 0), x);
    }
}

#[test]
fn write_at_replaces_only_the_field() {
    let mut buf = [0xaau8; 8];
    write_at(&mut buf, 2, &[1, 2, 3]);
    assert_eq!(buf, [0xaa, 0xaa, 1, 2, 3, 0xaa, 0xaa, 0xaa]);
    write_at(&mut buf, 8, &[]);
    assert_eq!(buf, [0xaa, 0xaa, 1, 2, 3, 0xaa, 0xaa, 0xaa]);
}

#[test]
fn put_field_returns_the_next_offset() {
    let mut buf = [0u8; 6];
    let at = put_field(&mut buf, 0, &[9, 8]);
    assert_eq!(at, 2);
    let at = put_field(&mut buf, at, &[7, 6, 5]);
    assert_eq!(at, 5);
    assert_eq!(buf, [9, 8, 7, 6, 5, 0]);
}

#[test]
fn read_array_takes_the_bytes_at_the_offset() {
    let buf = [10u8, 11, 12, 13, 14];
    assert_eq!(read_array::<3>(&buf, 1), [11, 12, 13]);
    assert_eq!(read_array::<0>(&buf, 5), []);
    assert_eq!(read_array::<5>(&buf, 0), buf);
}

#[test]
fn encode_field_needs_room() {
    let mut small = [0xffu8; 2];
    assert_eq!(encode_field(&mut small, &[1, 2, 3]), Err(CodecError::Length));
    assert_eq!(small, [0xff, 0xff]);
    let mut exact = [0xffu8; 3];
    assert_eq!(encode_field(&mut exact, &[1, 2, 3]), Ok(3));
    assert_eq!(exact, [1, 2, 3]);
}

#[test]
fn decode_field_needs_enough_bytes() {
    assert_eq!(decode_field::<4>(&[1, 2, 3]), Err(CodecError::Length));
    assert_eq!(decode_field::<4>(&[1, 2, 3, 4, 5]), Ok([1, 2, 3, 4]));
}

#[test]
fn bytes_eq_compares_length_and_content() {
    assert!(bytes_eq(&[], &[]));
    assert!(bytes_eq(&[1, 2], &[1, 2]));
    assert!(!bytes_eq(&[1, 2], &[1, 3]));
    assert!(!bytes_eq(&[1, 2], &[1, 2, 0]));
}
