//! Floating point numbers under a total order.

use vstd::prelude::*;
use super::order::{compare_ints, int_order, Order};

verus! {

/// The bit patterns below this one have the sign bit clear.
pub const SIGN: u64 = 0x8000_0000_0000_0000;

/// The place of a bit pattern in the total order of IEEE 754 doubles.
///
/// A pattern with the sign bit clear stands at its own value. One with the sign
/// bit set stands below zero, the further the larger its magnitude. So the
/// order runs from the negative NaNs over negative infinity, the negative
/// numbers, `-0`, `+0`, the positive numbers and positive infinity up to the
/// positive NaNs, and no two patterns share a place.
pub open spec fn rank_of_bits(bits: u64) -> int {
    if bits < SIGN {
        bits as int
    } else {
        SIGN - 1 - bits
    }
}

/// The bit pattern that stands at `rank`; the inverse of [`rank_of_bits`].
pub open spec fn bits_of_rank(rank: int) -> u64 {
    if rank >= 0 {
        rank as u64
    } else {
        (SIGN - 1 - rank) as u64
    }
}

/// A 64-bit float that can be ordered, compared and hashed like an integer.
///
/// The value is kept as the rank of its bit pattern, so that the derived
/// order and hash agree with [`Float::compare`] and with `==`.
#[derive(Debug, Hash, PartialOrd, Ord)]
pub struct Float {
    rank: i64,
}

impl View for Float {
    type V = u64;

    /// The bit pattern of the float.
    closed spec fn view(&self) -> u64 {
        bits_of_rank(self.rank as int)
    }
}

impl Float {
    /// The float with the given bit pattern, whatever it encodes.
    pub fn from_bits(bits: u64) -> (float: Float)
        ensures
            float@ == bits,
    {
        if bits < SIGN {
            Float { rank: bits as i64 }
        } else {
            let magnitude: u64 = bits - SIGN;
            Float { rank: -1 - (magnitude as i64) }
        }
    }

    /// The bit pattern of the float, as it was given.
    pub fn to_bits(&self) -> (bits: u64)
        ensures
            bits == self@,
    {
        if self.rank >= 0 {
            self.rank as u64
        } else {
            let magnitude: i64 = -1 - self.rank;
            (magnitude as u64) + SIGN
        }
    }

    /// Shallow copy.
    pub fn copy(&self) -> (float: Float)
        ensures
            float@ == self@,
    {
        Float { rank: self.rank }
    }

    /// How the float stands to `other` in the total order.
    pub fn compare(&self, other: &Float) -> (found: Order)
        ensures
            found == int_order(rank_of_bits(self@), rank_of_bits(other@)),
    {
        compare_ints(self.rank as i128, other.rank as i128)
    }

    /// Whether the two floats have the same bit pattern.
    pub fn equals(&self, other: &Float) -> (same: bool)
        ensures
            same == (self@ == other@),
    {
        self.rank == other.rank
    }
}

impl PartialEq for Float {
    fn eq(&self, other: &Float) -> (same: bool) {
        self.equals(other)
    }
}

impl vstd::std_specs::cmp::PartialEqSpecImpl for Float {
    open spec fn obeys_eq_spec() -> bool {
        true
    }

    open spec fn eq_spec(&self, other: &Float) -> bool {
        self@ == other@
    }
}

impl Eq for Float {

}

/// Two bit patterns of one rank are one pattern.
pub proof fn lemma_rank_of_bits_injective(a: u64, b: u64)
    requires
        rank_of_bits(a) == rank_of_bits(b),
    ensures
        a == b,
{
}

/// Every bit pattern has a rank that fits 64 bits with a sign, and is found
/// again from its rank.
pub proof fn lemma_rank_of_bits(bits: u64)
    ensures
        i64::MIN <= rank_of_bits(bits) <= i64::MAX,
        bits_of_rank(rank_of_bits(bits)) == bits,
{
}

} // verus!
