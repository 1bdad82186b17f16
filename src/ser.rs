//! The comma detector, and the encoder and decoder over the `DataWord` and
//! `Symbol` value types.

use vstd::prelude::*;

use crate::Disparity;
use crate::codec::{decode_8b10b, decoded, encode_8b10b, encoded};

verus! {

/// The mask of a 10-bit symbol.
pub const LOWER_10_BITMASK: u16 = 0x3FF;

/// Whether `symbol` is one of the two comma patterns.
pub open spec fn is_comma_symbol(symbol: u16) -> bool {
    symbol == 0b0011111010 || symbol == 0b1100000101
}

/// Recognizes the two comma patterns.
pub fn is_comma(symbol: u16) -> (r: bool)
    ensures
        r == is_comma_symbol(symbol),
{
    symbol == 0b0011111010 || symbol == 0b1100000101
}

/// Encodes a data word into a symbol carrying the disparity after it.
pub fn encode_8b10b_const(word: DataWord) -> (r: Symbol)
    ensures
        r@ == encoded(word@.0, word@.1, word@.2),
{
    let (symbol, new_disp) = encode_8b10b(word.byte(), word.is_control(), word.disparity());
    Symbol::new_unchecked(symbol, new_disp)
}

/// Decodes a symbol received under the disparity it carries.
pub fn decode_8b10b_const(encoded_symbol: Symbol) -> (r: Option<DataWord>)
    ensures
        match r {
            Some(w) => decoded(encoded_symbol@.0, encoded_symbol@.1) == Some(w@),
            None => decoded(encoded_symbol@.0, encoded_symbol@.1) is None,
        },
{
    match decode_8b10b(encoded_symbol.symbol(), encoded_symbol.disparity()) {
        Some((byte, is_control, disparity)) => Some(DataWord::new(byte, is_control, disparity)),
        None => None,
    }
}

/// The plaintext side: a byte, whether it is a control character, and a
/// disparity.
#[derive(Debug, Clone, Copy, PartialEq, Eq, Structural)]
pub struct DataWord {
    byte: u8,
    is_control: bool,
    disparity: Disparity,
}

impl View for DataWord {
    type V = (u8, bool, Disparity);

    closed spec fn view(&self) -> (u8, bool, Disparity) {
        (self.byte, self.is_control, self.disparity)
    }
}

impl DataWord {
    pub fn new(byte: u8, is_control: bool, disparity: Disparity) -> (r: Self)
        ensures
            r@ == (byte, is_control, disparity),
    {
        Self { byte, is_control, disparity }
    }

    pub fn byte(&self) -> (r: u8)
        ensures
            r == self@.0,
    {
        self.byte
    }

    pub fn is_control(&self) -> (r: bool)
        ensures
            r == self@.1,
    {
        self.is_control
    }

    pub fn disparity(&self) -> (r: Disparity)
        ensures
            r == self@.2,
    {
        self.disparity
    }
}

/// The wire side: a 10-bit symbol and a disparity.
#[derive(Debug, Clone, Copy, PartialEq, Eq, Structural)]
pub struct Symbol {
    symbol: u16,
    disparity: Disparity,
}

impl View for Symbol {
    type V = (u16, Disparity);

    closed spec fn view(&self) -> (u16, Disparity) {
        (self.symbol, self.disparity)
    }
}

impl Symbol {
    #[verifier::type_invariant]
    spec fn fits(self) -> bool {
        self.symbol <= LOWER_10_BITMASK
    }

    /// Builds a symbol, or nothing where `symbol` does not fit in ten bits.
    pub fn new(symbol: u16, disparity: Disparity) -> (r: Option<Self>)
        ensures
            symbol <= LOWER_10_BITMASK <==> r is Some,
            r matches Some(s) ==> s@ == (symbol, disparity),
    {
        if symbol <= LOWER_10_BITMASK {
            Some(Self::new_unchecked(symbol, disparity))
        } else {
            None
        }
    }

    /// Builds a symbol that the caller already knows to fit in ten bits.
    pub fn new_unchecked(symbol: u16, disparity: Disparity) -> (r: Self)
        requires
            symbol <= LOWER_10_BITMASK,
        ensures
            r@ == (symbol, disparity),
    {
        Self { symbol, disparity }
    }

    pub fn symbol(&self) -> (r: u16)
        ensures
            r == self@.0,
            r <= LOWER_10_BITMASK,
    {
        proof {
            use_type_invariant(self);
        }
        self.symbol
    }

    pub fn disparity(&self) -> (r: Disparity)
        ensures
            r == self@.1,
    {
        self.disparity
    }
}

} // verus!
