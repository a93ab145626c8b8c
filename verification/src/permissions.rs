use vstd::prelude::*;

verus! {

/// The bits of the four known flags together.
pub open spec fn all_bits() -> u8 {
    0x0F
}

/// A set of media permissions, one bit per flag: camera, microphone,
/// display and speaker. Bits outside the four flags enter only through
/// `from_bits_retain`.
#[derive(Debug, Clone, Copy, PartialEq, Eq, Structural, PartialOrd, Ord, Hash)]
pub struct Permissions {
    bits: u8,
}

impl View for Permissions {
    type V = u8;

    closed spec fn view(&self) -> u8 {
        self.bits
    }
}

impl Permissions {
    /// The camera flag alone.
    pub fn camera() -> (p: Self)
        ensures
            p@ == 1,
    {
        Permissions { bits: 0b0000_0001 }
    }

    /// The microphone flag alone.
    pub fn microphone() -> (p: Self)
        ensures
            p@ == 2,
    {
        Permissions { bits: 0b0000_0010 }
    }

    /// The display flag alone.
    pub fn display() -> (p: Self)
        ensures
            p@ == 4,
    {
        Permissions { bits: 0b0000_0100 }
    }

    /// The speaker flag alone.
    pub fn speaker() -> (p: Self)
        ensures
            p@ == 8,
    {
        Permissions { bits: 0b0000_1000 }
    }

    /// No flag set.
    pub fn empty() -> (p: Self)
        ensures
            p@ == 0,
    {
        Permissions { bits: 0 }
    }

    /// All four flags set.
    pub fn all() -> (p: Self)
        ensures
            p@ == all_bits(),
    {
        Permissions { bits: 0x0F }
    }

    /// The raw bits.
    pub fn bits(&self) -> (b: u8)
        ensures
            b == self@,
    {
        self.bits
    }

    /// The flags of `bits`, or `None` when `bits` has a bit outside the four
    /// flags.
    pub fn from_bits(bits: u8) -> (p: Option<Self>)
        ensures
            p is Some <==> bits & all_bits() == bits,
            p matches Some(q) ==> q@ == bits,
    {
        let truncated = Self::from_bits_truncate(bits).bits;
        if truncated == bits {
            Some(Permissions { bits })
        } else {
            None
        }
    }

    /// The flags of `bits`, dropping bits outside the four flags.
    pub fn from_bits_truncate(bits: u8) -> (p: Self)
        ensures
            p@ == bits & all_bits(),
    {
        Permissions { bits: bits & Self::all().bits }
    }

    /// The flags of `bits`, keeping every bit.
    pub fn from_bits_retain(bits: u8) -> (p: Self)
        ensures
            p@ == bits,
    {
        Permissions { bits }
    }

    /// No bit is set.
    pub fn is_empty(&self) -> (b: bool)
        ensures
            b == (self@ == 0),
    {
        self.bits == 0
    }

    /// All four flags are set.
    pub fn is_all(&self) -> (b: bool)
        ensures
            b == ((all_bits() | self@) == self@),
    {
        Self::all().bits | self.bits == self.bits
    }

    /// Some bit is set in both.
    pub fn intersects(&self, other: Self) -> (b: bool)
        ensures
            b == ((self@ & other@) != 0),
    {
        self.bits & other.bits != 0
    }

    /// Every bit of `other` is set in `self`.
    pub fn contains(&self, other: Self) -> (b: bool)
        ensures
            b == ((self@ & other@) == other@),
    {
        self.bits & other.bits == other.bits
    }

    /// Sets the bits of `other`.
    pub fn insert(&mut self, other: Self)
        ensures
            final(self)@ == (old(self)@ | other@),
    {
        *self = Permissions { bits: self.bits }.union(other);
    }

    /// Clears the bits of `other`.
    pub fn remove(&mut self, other: Self)
        ensures
            final(self)@ == (old(self)@ & !other@),
    {
        *self = Permissions { bits: self.bits }.difference(other);
    }

    /// Flips the bits of `other`.
    pub fn toggle(&mut self, other: Self)
        ensures
            final(self)@ == (old(self)@ ^ other@),
    {
        *self = Permissions { bits: self.bits }.symmetric_difference(other);
    }

    /// Sets the bits of `other` when `value` holds, clears them otherwise.
    pub fn set(&mut self, other: Self, value: bool)
        ensures
            final(self)@ == (if value {
                old(self)@ | other@
            } else {
                old(self)@ & !other@
            }),
    {
        if value {
            self.insert(other);
        } else {
            self.remove(other);
        }
    }

    /// The bits set in both.
    pub fn intersection(self, other: Self) -> (p: Self)
        ensures
            p@ == (self@ & other@),
    {
        Permissions { bits: self.bits & other.bits }
    }

    /// The bits set in either.
    pub fn union(self, other: Self) -> (p: Self)
        ensures
            p@ == (self@ | other@),
    {
        Permissions { bits: self.bits | other.bits }
    }

    /// The bits of `self` not set in `other`.
    pub fn difference(self, other: Self) -> (p: Self)
        ensures
            p@ == (self@ & !other@),
    {
        Permissions { bits: self.bits & !other.bits }
    }

    /// The bits set in exactly one of the two.
    pub fn symmetric_difference(self, other: Self) -> (p: Self)
        ensures
            p@ == (self@ ^ other@),
    {
        Permissions { bits: self.bits ^ other.bits }
    }

    /// The known flags not set in `self`.
    pub fn complement(self) -> (p: Self)
        ensures
            p@ == (!self@ & all_bits()),
    {
        Self::from_bits_truncate(!self.bits)
    }
}

/// Two permission sets with the same bits are the same set.
pub proof fn lemma_bits_identify(p: Permissions, q: Permissions)
    requires
        p@ == q@,
    ensures
        p == q,
{
}

/// The four flags together are exactly `all`.
pub proof fn lemma_flags_make_all()
    ensures
        (1u8 | 2u8 | 4u8 | 8u8) == all_bits(),
{
    assert((1u8 | 2u8 | 4u8 | 8u8) == 0x0Fu8) by (bit_vector);
}

/// After inserting `other`, the set contains `other`, and it still contains
/// everything it contained before.
pub proof fn lemma_insert_contains(before: u8, other: u8)
    ensures
        ((before | other) & other) == other,
        ((before | other) & before) == before,
{
    assert(((before | other) & other) == other) by (bit_vector);
    assert(((before | other) & before) == before) by (bit_vector);
}

/// After removing `other`, the set no longer intersects `other`, and it is
/// contained in what it was before.
pub proof fn lemma_remove_disjoint(before: u8, other: u8)
    ensures
        ((before & !other) & other) == 0,
        (before & (before & !other)) == (before & !other),
{
    assert(((before & !other) & other) == 0) by (bit_vector);
    assert((before & (before & !other)) == (before & !other)) by (bit_vector);
}

/// Toggling the same flags twice gives the set back.
pub proof fn lemma_toggle_twice(before: u8, other: u8)
    ensures
        ((before ^ other) ^ other) == before,
{
    assert(((before ^ other) ^ other) == before) by (bit_vector);
}

/// `from_bits` gives back the set whose bits it is given exactly when they
/// are all known flags; `from_bits_truncate` always yields known flags only
/// and keeps a set of known flags unchanged.
pub proof fn lemma_known_bits_round_trip(bits: u8)
    ensures
        ((bits & all_bits()) & all_bits()) == (bits & all_bits()),
        (bits & all_bits()) == bits <==> (bits & !all_bits()) == 0,
{
    assert(((bits & 0x0Fu8) & 0x0Fu8) == (bits & 0x0Fu8)) by (bit_vector);
    assert((bits & 0x0Fu8) == bits <==> (bits & !0x0Fu8) == 0) by (bit_vector);
}

/// The complement of the complement of a set of known flags is the set.
pub proof fn lemma_complement_twice(bits: u8)
    requires
        (bits & all_bits()) == bits,
    ensures
        (!(!bits & all_bits()) & all_bits()) == bits,
{
    assert((bits & 0x0Fu8) == bits ==> (!(!bits & 0x0Fu8) & 0x0Fu8) == bits) by (bit_vector);
}

/// For a set of known flags, the difference with `other` is its
/// intersection with the complement of `other`.
pub proof fn lemma_difference_is_intersection_with_complement(a: u8, b: u8)
    requires
        (a & all_bits()) == a,
    ensures
        (a & !b) == (a & (!b & all_bits())),
{
    assert((a & 0x0Fu8) == a ==> (a & !b) == (a & (!b & 0x0Fu8))) by (bit_vector);
}

/// Union is commutative and associative, and `empty` is its unit.
pub proof fn lemma_union_algebra(a: u8, b: u8, c: u8)
    ensures
        (a | b) == (b | a),
        ((a | b) | c) == (a | (b | c)),
        (a | 0u8) == a,
{
    assert((a | b) == (b | a)) by (bit_vector);
    assert(((a | b) | c) == (a | (b | c))) by (bit_vector);
    assert((a | 0u8) == a) by (bit_vector);
}

} // verus!
