//! An 8b10b line-code transcoder. Each byte, optionally flagged as a control
//! character, becomes a 10-bit DC-balanced symbol and back, while the caller
//! threads a running disparity from one call to the next.

use vstd::prelude::*;

pub mod bits;
pub mod symbols;
pub mod codec;
pub mod ser;
pub mod laws;

pub use crate::codec::{decode_8b10b, encode_8b10b};
pub use crate::ser::is_comma;

use crate::bits::{complement10, count_ones, ones};

verus! {

/// The running disparity of a symbol stream: whether more ones or more
/// zeros have been sent so far.
#[derive(Debug, Clone, Copy, PartialEq, Eq, Structural)]
pub enum Disparity {
    Negative,
    Positive,
}

impl Disparity {
    /// The other disparity.
    pub open spec fn flipped(self) -> Disparity {
        match self {
            Disparity::Negative => Disparity::Positive,
            Disparity::Positive => Disparity::Negative,
        }
    }

    /// The disparity after `symbol` has been sent or received: decided by
    /// the number of set bits, and on a tie by the low six and the next four
    /// bits; where both of those are balanced it stays as it was.
    pub open spec fn next(self, symbol: u16) -> Disparity {
        let n = ones(symbol);
        if n > 5 {
            Disparity::Positive
        } else if n < 5 {
            Disparity::Negative
        } else {
            let n6 = ones(symbol & 0x3F);
            let n4 = ones((symbol >> 6u16) & 0x0F);
            if n6 > 3 || n4 > 2 {
                Disparity::Positive
            } else if n6 < 3 || n4 < 2 {
                Disparity::Negative
            } else {
                self
            }
        }
    }

    /// The symbol sent for a positive-disparity table entry under this
    /// disparity: the entry itself, or its low ten bits inverted.
    pub open spec fn adapt(self, symbol: u16) -> u16 {
        match self {
            Disparity::Positive => symbol,
            Disparity::Negative => complement10(symbol),
        }
    }

    pub fn flip(self) -> (r: Self)
        ensures
            r == self.flipped(),
    {
        match self {
            Self::Negative => Disparity::Positive,
            Self::Positive => Disparity::Negative,
        }
    }

    /// Returns the disparity after the passed symbol has been processed.
    pub fn after_symbol(self, symbol: u16) -> (r: Self)
        ensures
            r == self.next(symbol),
    {
        let n = count_ones(symbol);
        if n > 5 {
            Self::Positive
        } else if n < 5 {
            Self::Negative
        } else {
            let b6 = symbol & 0x3F;
            let b4 = (symbol >> 6u16) & 0x0F;
            let n6 = count_ones(b6);
            let n4 = count_ones(b4);
            if n6 > 3 || n4 > 2 {
                Disparity::Positive
            } else if n6 < 3 || n4 < 2 {
                Disparity::Negative
            } else {
                self
            }
        }
    }

    /// Adapts a positive-disparity table entry to this disparity.
    pub fn with_disparity(self, symbol: u16) -> (r: u16)
        ensures
            r == self.adapt(symbol),
    {
        match self {
            Self::Positive => symbol,
            Self::Negative => !symbol & 0x3FF,
        }
    }
}

/// Inverts the low ten bits of `symbol`: the same table entry sent under the
/// opposite disparity.
pub fn flip_disparity(symbol: u16) -> (r: u16)
    ensures
        r == complement10(symbol),
        r <= 0x3FF,
        symbol <= 0x3FF ==> r == 0x3FF - symbol,
{
    proof {
        if symbol <= 0x3FF {
            crate::bits::lemma_complement10(symbol);
        }
        assert(!symbol & 0x3FF <= 0x3FF) by (bit_vector);
    }
    !symbol & 0x3FF
}

} // verus!
