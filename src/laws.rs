//! Properties that relate the encoder, the decoder and the disparity rule.

use vstd::prelude::*;

use crate::Disparity;
use crate::bits::{complement10, lemma_complement10, ones};
use crate::codec::{decoded, encoded};
use crate::symbols::{data_symbol, lemma_data_byte, lemma_data_symbol, lemma_not_control_symbol};

verus! {

/// Under either disparity, any data byte's symbol is decoded back to the
/// byte, as data, with the same next disparity the encoder gave.
pub proof fn lemma_round_trip(b: u8, d: Disparity)
    ensures
        decoded(encoded(b, false, d).0, d) == Some((b, false, encoded(b, false, d).1)),
{
    let t = data_symbol(b);
    lemma_data_symbol(b);
    lemma_data_byte(b);
    lemma_complement10(t);
    lemma_not_control_symbol(t, 0);
}

/// Flipping a disparity twice gives it back.
pub proof fn lemma_flip_involution(d: Disparity)
    ensures
        d.flipped().flipped() == d,
{
}

/// A data byte's symbol, its low ten bits inverted, is decoded back to the
/// byte under the opposite disparity.
pub proof fn lemma_complement_symmetry(b: u8, d: Disparity)
    ensures
        decoded(complement10(encoded(b, false, d).0), d.flipped()) == Some(
            (b, false, d.flipped().next(complement10(encoded(b, false, d).0))),
        ),
{
    let t = data_symbol(b);
    lemma_data_symbol(b);
    lemma_data_byte(b);
    lemma_complement10(t);
    lemma_complement10(complement10(t));
    lemma_not_control_symbol(t, 0);
}

/// A symbol with five set bits whose low six bits hold three of them and
/// whose next four bits hold two leaves the disparity as it was.
pub proof fn lemma_balanced_tie_keeps_disparity(s: u16, d: Disparity)
    requires
        ones(s) == 5,
        ones(s & 0x3F) == 3,
        ones((s >> 6u16) & 0x0F) == 2,
    ensures
        d.next(s) == d,
{
}

} // verus!
