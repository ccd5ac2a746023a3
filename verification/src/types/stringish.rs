//! Text in a field of fixed width.

use crate::codec::{
    array_of, bytes_eq, decode_field, encode_field, lemma_array_of, splice, CodecError,
};
use crate::text::str_from_utf8;
use vstd::prelude::*;
use vstd::std_specs::cmp::PartialEqSpecImpl;
use vstd::std_specs::convert::FromSpecImpl;
use vstd::string::StringSliceAdditionalSpecFns;
use vstd::utf8::{decode_utf8, encode_utf8, valid_utf8};

verus! {

/// What `to_text` gives for a field whose bytes are not valid UTF-8.
pub const INVALID_TEXT: &'static str = "INVALID_U2F8";

/// UTF-8 text in exactly `N` bytes, padded with zero bytes.
#[derive(Debug)]
pub struct Stringish<const N: usize>(pub [u8; N]);

/// The first `n` bytes of `s`, with zero bytes after them where `s` is
/// shorter than `n`.
pub open spec fn padded(s: Seq<u8>, n: nat) -> Seq<u8> {
    Seq::new(
        n,
        |i: int|
            if i < s.len() {
                s[i]
            } else {
                0u8
            },
    )
}

/// The field of width `N` that holds the first `N` bytes of `bytes`.
pub open spec fn field_of<const N: usize>(bytes: Seq<u8>) -> Stringish<N> {
    Stringish(array_of::<N>(padded(bytes, N as nat)))
}

/// The bytes of `field_of` are the first `N` of `bytes`, zero-padded.
pub proof fn lemma_field_of<const N: usize>(bytes: Seq<u8>)
    ensures
        field_of::<N>(bytes)@ == padded(bytes, N as nat),
{
    lemma_array_of::<N>(padded(bytes, N as nat));
}

/// How many bytes of `s` stand before its first zero byte: all of them where
/// it holds none.
pub open spec fn text_len(s: Seq<u8>) -> int
    decreases s.len(),
{
    if s.len() == 0 || s[0] == 0 {
        0
    } else {
        1 + text_len(s.drop_first())
    }
}

/// The text that a field with the bytes `s` holds: the bytes before the
/// first zero byte, read as UTF-8, or `INVALID_TEXT` where they are none.
pub open spec fn text_of(s: Seq<u8>) -> Seq<char> {
    let prefix = s.subrange(0, text_len(s));
    if valid_utf8(prefix) {
        decode_utf8(prefix)
    } else {
        INVALID_TEXT@
    }
}

/// `text_len` is the one position up to which no byte is zero and at which,
/// if it lies inside `s`, a zero byte stands.
pub proof fn lemma_text_len(s: Seq<u8>, n: int)
    requires
        0 <= n <= s.len(),
        forall|j: int| 0 <= j < n ==> s[j] != 0,
        n < s.len() ==> s[n] == 0,
    ensures
        text_len(s) == n,
    decreases s.len(),
{
    if n > 0 {
        let rest = s.drop_first();
        assert forall|j: int| 0 <= j < n - 1 implies rest[j] != 0 by {
            assert(rest[j] == s[j + 1]);
        }
        lemma_text_len(rest, n - 1);
    }
}

impl<const N: usize> View for Stringish<N> {
    type V = Seq<u8>;

    open spec fn view(&self) -> Seq<u8> {
        self.0@
    }
}

impl<const N: usize> Stringish<N> {
    /// The field that holds `s`, which must fit: fails where `s` takes more
    /// than `N` bytes.
    pub fn from_str_strict(s: &str) -> (r: Result<Self, ()>)
        ensures
            r is Ok <==> s.spec_bytes().len() <= N,
            r matches Ok(v) ==> v@ == padded(s.spec_bytes(), N as nat),
    {
        if s.as_bytes().len() > N {
            return Err(());
        }
        Ok(Self::from_str_lossy(s))
    }

    /// The field that holds the first `N` bytes of `s`. Where `s` is longer,
    /// the cut may fall inside a character.
    pub fn from_str_lossy(s: &str) -> (r: Self)
        ensures
            r@ == padded(s.spec_bytes(), N as nat),
    {
        let b = s.as_bytes();
        let n = if b.len() < N {
            b.len()
        } else {
            N
        };
        let mut d = [0u8; N];
        let mut i: usize = 0;
        while i < n
            invariant
                i <= n,
                n <= N,
                n <= b@.len(),
                forall|j: int| 0 <= j < i ==> d@[j] == b@[j],
                forall|j: int| i <= j < N ==> d@[j] == 0u8,
            decreases n - i,
        {
            d[i] = b[i];
            i += 1;
        }
        assert(d@ =~= padded(b@, N as nat));
        Stringish(d)
    }

    /// The text of the field: what stands before the first zero byte, or
    /// `INVALID_TEXT` where that is not valid UTF-8.
    pub fn to_text(&self) -> (r: &str)
        ensures
            r@ == text_of(self@),
    {
        broadcast use vstd::utf8::encode_utf8_decode_utf8;

        let mut n: usize = 0;
        while n < N && self.0[n] != 0
            invariant
                n <= N,
                forall|j: int| 0 <= j < n ==> self.0@[j] != 0,
            decreases N - n,
        {
            n += 1;
        }
        proof {
            lemma_text_len(self@, n as int);
        }
        match str_from_utf8(&self.0.as_slice()[0..n]) {
            Ok(v) => v,
            Err(_) => INVALID_TEXT,
        }
    }

    /// The width of the encoded field.
    pub fn encode_len(&self) -> (r: Result<usize, CodecError>)
        ensures
            r == Ok::<usize, CodecError>(N),
    {
        Ok(N)
    }

    /// Writes the `N` bytes at the start of `buff`.
    pub fn encode(&self, buff: &mut [u8]) -> (r: Result<usize, CodecError>)
        ensures
            old(buff)@.len() >= N ==> r == Ok::<usize, CodecError>(N)
                && final(buff)@ == splice(old(buff)@, 0, self@),
            old(buff)@.len() < N ==> r == Err::<usize, CodecError>(CodecError::Length)
                && final(buff)@ == old(buff)@,
    {
        encode_field(buff, self.0.as_slice())
    }

    /// Reads the field from the first `N` bytes of `buff`.
    pub fn decode(buff: &[u8]) -> (r: Result<(Self, usize), CodecError>)
        ensures
            buff@.len() >= N ==> r is Ok && r->Ok_0.0@ == buff@.subrange(0, N as int)
                && r->Ok_0.1 == N,
            buff@.len() < N ==> r == Err::<(Self, usize), CodecError>(CodecError::Length),
    {
        match decode_field::<N>(buff) {
            Ok(d) => Ok((Stringish(d), N)),
            Err(e) => Err(e),
        }
    }
}

/// Text that fits the field and holds no zero byte is read back as it was
/// written.
pub proof fn lemma_strict_text_round_trip<const N: usize>(chars: Seq<char>)
    requires
        encode_utf8(chars).len() <= N,
        !encode_utf8(chars).contains(0u8),
    ensures
        text_of(padded(encode_utf8(chars), N as nat)) == chars,
{
    broadcast use vstd::utf8::encode_utf8_decode_utf8, vstd::utf8::encode_utf8_valid_utf8;

    let bytes = encode_utf8(chars);
    let field = padded(bytes, N as nat);
    assert forall|j: int| 0 <= j < bytes.len() implies field[j] != 0 by {
        assert(bytes.contains(bytes[j]));
    }
    lemma_text_len(field, bytes.len() as int);
    assert(field.subrange(0, bytes.len() as int) =~= bytes);
}

impl<const N: usize> Clone for Stringish<N> {
    fn clone(&self) -> (r: Self)
        ensures
            r == *self,
    {
        Stringish(self.0)
    }
}

impl<const N: usize> PartialEq for Stringish<N> {
    fn eq(&self, other: &Self) -> (r: bool) {
        bytes_eq(self.0.as_slice(), other.0.as_slice())
    }
}

impl<const N: usize> PartialEqSpecImpl for Stringish<N> {
    open spec fn obeys_eq_spec() -> bool {
        true
    }

    open spec fn eq_spec(&self, other: &Self) -> bool {
        self@ == other@
    }
}

impl<const N: usize> Default for Stringish<N> {
    fn default() -> (r: Self)
        ensures
            r@ == padded(Seq::<u8>::empty(), N as nat),
    {
        let d = [0u8; N];
        assert(d@ =~= padded(Seq::<u8>::empty(), N as nat));
        Stringish(d)
    }
}

impl<const N: usize> core::str::FromStr for Stringish<N> {
    type Err = ();

    fn from_str(s: &str) -> (r: Result<Self, ()>)
        ensures
            r is Ok <==> s.spec_bytes().len() <= N,
            r matches Ok(v) ==> v@ == padded(s.spec_bytes(), N as nat),
    {
        Self::from_str_strict(s)
    }
}

impl<const N: usize> From<&str> for Stringish<N> {
    fn from(value: &str) -> (r: Self) {
        let r = Self::from_str_lossy(value);
        proof {
            lemma_field_of::<N>(value.spec_bytes());
            assert(field_of::<N>(value.spec_bytes()).0 =~= r.0);
        }
        r
    }
}

impl<const N: usize> FromSpecImpl<&str> for Stringish<N> {
    open spec fn obeys_from_spec() -> bool {
        true
    }

    open spec fn from_spec(value: &str) -> Self {
        field_of::<N>(value.spec_bytes())
    }
}

impl<const N: usize> AsRef<str> for Stringish<N> {
    fn as_ref(&self) -> (r: &str)
        ensures
            r@ == text_of(self@),
    {
        self.to_text()
    }
}

impl<const N: usize> core::ops::Deref for Stringish<N> {
    type Target = [u8; N];

    fn deref(&self) -> (r: &[u8; N])
        ensures
            r@ == self@,
    {
        &self.0
    }
}

} // verus!
