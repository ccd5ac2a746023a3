//! Fixed-layout encoding: little-endian integers and raw byte fields at fixed
//! offsets of a flat buffer.

use vstd::prelude::*;

verus! {

/// Why a value could not be written to or read from a buffer.
#[derive(Copy, Clone, PartialEq, Eq, Debug, Structural)]
pub enum CodecError {
    /// The buffer is shorter than the encoding, or what it holds is no encoding.
    Length,
}

/// The two bytes of `x`, least significant first.
pub open spec fn le16(x: u16) -> Seq<u8> {
    seq![(x % 256) as u8, (x / 256) as u8]
}

/// The four bytes of `x`, least significant first.
pub open spec fn le32(x: u32) -> Seq<u8> {
    seq![
        (x % 256) as u8,
        ((x / 256) % 256) as u8,
        ((x / 65536) % 256) as u8,
        (x / 16777216) as u8,
    ]
}

/// The number whose little-endian bytes are the first two of `s`.
pub open spec fn from_le16(s: Seq<u8>) -> u16 {
    (s[0] as int + 256 * (s[1] as int)) as u16
}

/// The number whose little-endian bytes are the first four of `s`.
pub open spec fn from_le32(s: Seq<u8>) -> u32 {
    (s[0] as int + 256 * (s[1] as int) + 65536 * (s[2] as int) + 16777216 * (s[3] as int)) as u32
}

/// `s` with the bytes from `at` on replaced by `src`, as far as `src` reaches.
pub open spec fn splice(s: Seq<u8>, at: int, src: Seq<u8>) -> Seq<u8> {
    s.subrange(0, at) + src + s.subrange(at + src.len(), s.len() as int)
}

/// Reading back the bytes of a 16-bit number gives the number.
pub proof fn lemma_le16_read(x: u16)
    ensures
        le16(x).len() == 2,
        from_le16(le16(x)) == x,
{
}

/// Writing the number that was read from two bytes gives the bytes.
pub proof fn lemma_le16_written(s: Seq<u8>)
    requires
        s.len() == 2,
    ensures
        le16(from_le16(s)) == s,
{
    let a = s[0];
    let b = s[1];
    let y: u16 = (a as int + 256 * (b as int)) as u16;
    assert(y % 256 == a && y / 256 == b);
    assert(le16(from_le16(s)) =~= s);
}

/// Reading back the bytes of a 32-bit number gives the number.
pub proof fn lemma_le32_read(x: u32)
    ensures
        le32(x).len() == 4,
        from_le32(le32(x)) == x,
{
    assert(x == (x % 256) + 256 * ((x / 256) % 256) + 65536 * ((x / 65536) % 256) + 16777216 * (x
        / 16777216)) by (bit_vector);
    assert(x / 16777216 < 256) by (bit_vector);
}

/// Writing the number that was read from four bytes gives the bytes.
pub proof fn lemma_le32_written(s: Seq<u8>)
    requires
        s.len() == 4,
    ensures
        le32(from_le32(s)) == s,
{
    let a = s[0] as u32;
    let b = s[1] as u32;
    let c = s[2] as u32;
    let d = s[3] as u32;
    let y: u32 = (a + 256 * b + 65536 * c + 16777216 * d) as u32;
    assert(y % 256 == a && (y / 256) % 256 == b && (y / 65536) % 256 == c && y / 16777216 == d)
        by (bit_vector)
        requires
            a < 256,
            b < 256,
            c < 256,
            d < 256,
            y == a + 256 * b + 65536 * c + 16777216 * d,
    ;
    assert(le32(from_le32(s)) =~= s);
}

/// An array of `N` bytes that agrees with `s` on its first `n` bytes.
pub open spec fn array_upto<const N: usize>(s: Seq<u8>, n: nat) -> [u8; N]
    decreases n,
{
    if n == 0 {
        vstd::array::spec_array_fill_for_copy_type::<u8, N>(0u8)
    } else {
        vstd::array::spec_array_update(array_upto::<N>(s, (n - 1) as nat), n - 1, s[n - 1])
    }
}

/// The array that holds the `N` bytes of `s`.
pub open spec fn array_of<const N: usize>(s: Seq<u8>) -> [u8; N] {
    array_upto::<N>(s, N as nat)
}

/// `array_of` holds what it was made of.
pub proof fn lemma_array_of<const N: usize>(s: Seq<u8>)
    requires
        s.len() == N,
    ensures
        array_of::<N>(s)@ == s,
{
    lemma_array_upto::<N>(s, N as nat);
    assert(array_of::<N>(s)@ =~= s);
}

proof fn lemma_array_upto<const N: usize>(s: Seq<u8>, n: nat)
    requires
        s.len() == N,
        n <= N,
    ensures
        array_upto::<N>(s, n)@.len() == N,
        forall|j: int| 0 <= j < n ==> array_upto::<N>(s, n)@[j] == s[j],
    decreases n,
{
    broadcast use vstd::array::group_array_axioms;

    if n > 0 {
        lemma_array_upto::<N>(s, (n - 1) as nat);
    }
}

/// The little-endian bytes of a 16-bit number.
pub fn u16_to_le(x: u16) -> (r: [u8; 2])
    ensures
        r@ == le16(x),
{
    let r = [(x % 256) as u8, (x / 256) as u8];
    assert(r@ =~= le16(x));
    r
}

/// The little-endian bytes of a 32-bit number.
pub fn u32_to_le(x: u32) -> (r: [u8; 4])
    ensures
        r@ == le32(x),
{
    let r = [
        (x % 256) as u8,
        ((x / 256) % 256) as u8,
        ((x / 65536) % 256) as u8,
        (x / 16777216) as u8,
    ];
    assert(r@ =~= le32(x));
    r
}

/// The 16-bit number stored little-endian at `at`.
pub fn u16_from_le(buf: &[u8], at: usize) -> (r: u16)
    requires
        at + 2 <= buf@.len(),
    ensures
        r == from_le16(buf@.subrange(at as int, at + 2)),
{
    let lo: u16 = buf[at] as u16;
    let hi: u16 = buf[at + 1] as u16;
    lo + 256 * hi
}

/// The 32-bit number stored little-endian at `at`.
pub fn u32_from_le(buf: &[u8], at: usize) -> (r: u32)
    requires
        at + 4 <= buf@.len(),
    ensures
        r == from_le32(buf@.subrange(at as int, at + 4)),
{
    let b0: u32 = buf[at] as u32;
    let b1: u32 = buf[at + 1] as u32;
    let b2: u32 = buf[at + 2] as u32;
    let b3: u32 = buf[at + 3] as u32;
    b0 + 256 * b1 + 65536 * b2 + 16777216 * b3
}

/// Copies `src` into `buf` from offset `at` on; the rest of `buf` stays.
pub fn write_at(buf: &mut [u8], at: usize, src: &[u8])
    requires
        at + src@.len() <= old(buf)@.len(),
    ensures
        final(buf)@ == splice(old(buf)@, at as int, src@),
{
    let n = src.len();
    let total = buf.len();
    let mut i: usize = 0;
    while i < n
        invariant
            i <= n,
            n == src@.len(),
            at + n <= total,
            total == buf@.len(),
            buf@.len() == old(buf)@.len(),
            forall|j: int| 0 <= j < at ==> buf@[j] == old(buf)@[j],
            forall|j: int| at <= j < at + i ==> buf@[j] == src@[j - at],
            forall|j: int| at + i <= j < buf@.len() ==> buf@[j] == old(buf)@[j],
        decreases n - i,
    {
        buf[at + i] = src[i];
        i += 1;
    }
    assert(buf@ =~= splice(old(buf)@, at as int, src@));
}

/// Writes the field `src` at offset `at`, behind the fields written before
/// it, and returns the offset of the next field. What stands behind the
/// field in `buf` stays.
pub fn put_field(buf: &mut [u8], at: usize, src: &[u8]) -> (next: usize)
    requires
        at + src@.len() <= old(buf)@.len(),
    ensures
        next == at + src@.len(),
        final(buf)@.len() == old(buf)@.len(),
        final(buf)@.subrange(0, next as int) == old(buf)@.subrange(0, at as int) + src@,
        forall|j: int| next <= j < old(buf)@.len() ==> final(buf)@[j] == old(buf)@[j],
{
    let _ = buf.len();
    write_at(buf, at, src);
    assert(buf@.subrange(0, at + src@.len()) =~= old(buf)@.subrange(0, at as int) + src@);
    at + src.len()
}

/// The `N` bytes of `buf` from offset `at` on.
pub fn read_array<const N: usize>(buf: &[u8], at: usize) -> (r: [u8; N])
    requires
        at + N <= buf@.len(),
    ensures
        r@ == buf@.subrange(at as int, at + N),
{
    let total = buf.len();
    let mut r = [0u8; N];
    let mut i: usize = 0;
    while i < N
        invariant
            i <= N,
            at + N <= total,
            total == buf@.len(),
            forall|j: int| 0 <= j < i ==> r@[j] == buf@[at + j],
        decreases N - i,
    {
        r[i] = buf[at + i];
        i += 1;
    }
    assert(r@ =~= buf@.subrange(at as int, at + N));
    r
}

/// Writes the field `src` at the start of `buf` and returns its width, or
/// fails, leaving `buf` as it was, where `buf` is too short to hold it.
pub fn encode_field(buf: &mut [u8], src: &[u8]) -> (r: Result<usize, CodecError>)
    ensures
        old(buf)@.len() >= src@.len() ==> r == Ok::<usize, CodecError>(src@.len() as usize)
            && final(buf)@ == splice(old(buf)@, 0, src@),
        old(buf)@.len() < src@.len() ==> r == Err::<usize, CodecError>(CodecError::Length)
            && final(buf)@ == old(buf)@,
{
    if buf.len() < src.len() {
        return Err(CodecError::Length);
    }
    write_at(buf, 0, src);
    Ok(src.len())
}

/// Reads a field of `N` bytes from the start of `buf`, or fails where `buf`
/// holds fewer.
pub fn decode_field<const N: usize>(buf: &[u8]) -> (r: Result<[u8; N], CodecError>)
    ensures
        buf@.len() >= N ==> r is Ok && r->Ok_0@ == buf@.subrange(0, N as int),
        buf@.len() < N ==> r == Err::<[u8; N], CodecError>(CodecError::Length),
{
    if buf.len() < N {
        return Err(CodecError::Length);
    }
    Ok(read_array::<N>(buf, 0))
}

/// Whether two byte strings are the same.
pub fn bytes_eq(a: &[u8], b: &[u8]) -> (r: bool)
    ensures
        r == (a@ == b@),
{
    if a.len() != b.len() {
        return false;
    }
    let n = a.len();
    let mut i: usize = 0;
    while i < n
        invariant
            i <= n,
            n == a@.len(),
            n == b@.len(),
            forall|j: int| 0 <= j < i ==> a@[j] == b@[j],
        decreases n - i,
    {
        if a[i] != b[i] {
            return false;
        }
        i += 1;
    }
    assert(a@ =~= b@);
    true
}

} // verus!
