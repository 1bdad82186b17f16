//! Counting set bits, and the complement of a 10-bit symbol.

use vstd::prelude::*;

verus! {

/// The number of set bits among the sixteen bits of `v`.
pub open spec fn ones(v: u16) -> int {
    (v & 1) + ((v >> 1u16) & 1) + ((v >> 2u16) & 1) + ((v >> 3u16) & 1)
        + ((v >> 4u16) & 1) + ((v >> 5u16) & 1) + ((v >> 6u16) & 1) + ((v >> 7u16) & 1)
        + ((v >> 8u16) & 1) + ((v >> 9u16) & 1) + ((v >> 10u16) & 1) + ((v >> 11u16) & 1)
        + ((v >> 12u16) & 1) + ((v >> 13u16) & 1) + ((v >> 14u16) & 1) + ((v >> 15u16) & 1)
}

/// The low ten bits of `v`, each one inverted.
pub open spec fn complement10(v: u16) -> u16 {
    !v & 0x3FF
}

proof fn lemma_bits_at_most_one(v: u16)
    by (bit_vector)
    ensures
        (v & 1) <= 1,
        ((v >> 1u16) & 1) <= 1,
        ((v >> 2u16) & 1) <= 1,
        ((v >> 3u16) & 1) <= 1,
        ((v >> 4u16) & 1) <= 1,
        ((v >> 5u16) & 1) <= 1,
        ((v >> 6u16) & 1) <= 1,
        ((v >> 7u16) & 1) <= 1,
        ((v >> 8u16) & 1) <= 1,
        ((v >> 9u16) & 1) <= 1,
        ((v >> 10u16) & 1) <= 1,
        ((v >> 11u16) & 1) <= 1,
        ((v >> 12u16) & 1) <= 1,
        ((v >> 13u16) & 1) <= 1,
        ((v >> 14u16) & 1) <= 1,
        ((v >> 15u16) & 1) <= 1,
{
}

/// Counts the set bits of `v`.
pub fn count_ones(v: u16) -> (r: u32)
    ensures
        r == ones(v),
        r <= 16,
{
    proof {
        lemma_bits_at_most_one(v);
    }
    ((v & 1) + ((v >> 1u16) & 1) + ((v >> 2u16) & 1) + ((v >> 3u16) & 1)
        + ((v >> 4u16) & 1) + ((v >> 5u16) & 1) + ((v >> 6u16) & 1) + ((v >> 7u16) & 1)
        + ((v >> 8u16) & 1) + ((v >> 9u16) & 1) + ((v >> 10u16) & 1) + ((v >> 11u16) & 1)
        + ((v >> 12u16) & 1) + ((v >> 13u16) & 1) + ((v >> 14u16) & 1)
        + ((v >> 15u16) & 1)) as u32
}

/// Inverting the low ten bits of a 10-bit value twice gives it back, and
/// the inverted value has as many set bits as `s` has clear ones.
pub proof fn lemma_complement10(s: u16)
    by (bit_vector)
    requires
        s <= 0x3FF,
    ensures
        complement10(s) <= 0x3FF,
        complement10(s) == 0x3FF - s,
        complement10(complement10(s)) == s,
        ones(complement10(s)) == 10 - ones(s),
{
}

} // verus!
