//! The flags of a manifest.

use vstd::prelude::*;

verus! {

/// The flag bit that marks a manifest as signed with a key made for the occasion.
pub const TRANSIENT_KEY: u16 = 0x0001;

/// The flags of a manifest, as a set. Only the flags that this library
/// defines can be in it; callers reach them by name, not by bit.
#[derive(Copy, Clone, Debug, PartialEq, Eq, Structural)]
pub struct Flags {
    bits: u16,
}

impl View for Flags {
    type V = u16;

    closed spec fn view(&self) -> u16 {
        self.bits
    }
}

/// `flags` with the `TRANSIENT_KEY` bit set or cleared.
pub open spec fn with_transient(flags: u16, transient: bool) -> u16 {
    if transient {
        flags | TRANSIENT_KEY
    } else {
        flags & !TRANSIENT_KEY
    }
}

/// The `TRANSIENT_KEY` bit of `with_transient` is as asked, and every other
/// bit is as it was.
pub proof fn lemma_with_transient(flags: u16, transient: bool)
    ensures
        (with_transient(flags, transient) & TRANSIENT_KEY != 0) == transient,
        with_transient(flags, transient) & !TRANSIENT_KEY == flags & !TRANSIENT_KEY,
{
    assert((flags | 1) & 1 != 0) by (bit_vector);
    assert((flags & !1u16) & 1 == 0) by (bit_vector);
    assert((flags | 1) & !1u16 == flags & !1u16) by (bit_vector);
    assert((flags & !1u16) & !1u16 == flags & !1u16) by (bit_vector);
}

/// Two sets of flags are the same set exactly when they have the same bits.
pub proof fn lemma_flags_by_bits(a: Flags, b: Flags)
    ensures
        (a == b) == (a@ == b@),
{
}

impl Flags {
    #[verifier::type_invariant]
    spec fn defined(self) -> bool {
        self.bits & !TRANSIENT_KEY == 0
    }

    /// The set without any flag.
    pub fn empty() -> (r: Self)
        ensures
            r@ == 0,
    {
        assert(0u16 & !1u16 == 0) by (bit_vector);
        Flags { bits: 0 }
    }

    /// The set that holds `TRANSIENT_KEY` alone.
    pub fn transient_key() -> (r: Self)
        ensures
            r@ == TRANSIENT_KEY,
    {
        assert(1u16 & !1u16 == 0) by (bit_vector);
        Flags { bits: TRANSIENT_KEY }
    }

    /// The set as bits; none but defined flags are set.
    pub fn bits(&self) -> (r: u16)
        ensures
            r == self@,
            r & !TRANSIENT_KEY == 0,
    {
        proof {
            use_type_invariant(self);
        }
        self.bits
    }

    /// The set of the defined flags among `bits`; other bits are dropped.
    pub fn from_bits_truncate(bits: u16) -> (r: Self)
        ensures
            r@ == bits & TRANSIENT_KEY,
    {
        assert((bits & 1) & !1u16 == 0) by (bit_vector);
        Flags { bits: bits & TRANSIENT_KEY }
    }

    /// Whether the signing key was made for the occasion.
    pub fn is_transient_key(&self) -> (r: bool)
        ensures
            r == (self@ & TRANSIENT_KEY != 0),
    {
        self.bits & TRANSIENT_KEY != 0
    }

    /// Puts `TRANSIENT_KEY` into the set, or takes it out.
    pub fn set_transient_key(&mut self, transient: bool)
        ensures
            final(self)@ == with_transient(old(self)@, transient),
    {
        let bits = self.bits;
        proof {
            assert((bits | 1) & !1u16 == bits & !1u16) by (bit_vector);
            assert((bits & !1u16) & !1u16 == bits & !1u16) by (bit_vector);
            use_type_invariant(&*self);
        }
        if transient {
            self.bits = bits | TRANSIENT_KEY;
        } else {
            self.bits = bits & !TRANSIENT_KEY;
        }
    }
}

} // verus!
