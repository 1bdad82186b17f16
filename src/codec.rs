//! The encoder and the decoder on plain values.

use vstd::prelude::*;

use crate::Disparity;
use crate::bits::{complement10, count_ones, ones};
use crate::ser::{is_comma, is_comma_symbol};
use crate::symbols::{
    control_code_for, control_code_of, control_symbol_for, control_symbol_from,
    control_symbol_of, data_byte, data_symbol, decode_table, encode_table, K28_5,
};

verus! {

/// The positive-disparity symbol for a byte: a control character's own
/// symbol where the byte is flagged as one and the control table has it,
/// else the data table's entry.
pub open spec fn positive_symbol(byte: u8, is_control: bool) -> u16 {
    if is_control {
        match control_symbol_of(byte) {
            Some(s) => s,
            None => data_symbol(byte),
        }
    } else {
        data_symbol(byte)
    }
}

/// The symbol sent for a byte under disparity `d`, and the disparity after it.
pub open spec fn encoded(byte: u8, is_control: bool, d: Disparity) -> (u16, Disparity) {
    let s = d.adapt(positive_symbol(byte, is_control));
    (s, d.next(s))
}

/// What a symbol received under disparity `d` stands for: the byte, whether
/// it is a control character, and the disparity after it; or nothing where
/// the symbol is out of range, has fewer than four or more than six set
/// bits, or no byte is sent as it.
pub open spec fn decoded(symbol: u16, d: Disparity) -> Option<(u8, bool, Disparity)> {
    if is_comma_symbol(symbol) {
        Some((K28_5, true, d.flipped()))
    } else if symbol > 0x3FF {
        None
    } else if ones(symbol) < 4 || ones(symbol) > 6 {
        None
    } else {
        let p = d.adapt(symbol);
        match control_code_of(p) {
            Some(c) => Some((c, true, d.next(symbol))),
            None => match data_byte(p) {
                Some(b) => Some((b, false, d.next(symbol))),
                None => None,
            },
        }
    }
}

proof fn lemma_control_symbol_fits(byte: u8, i: int)
    ensures
        control_symbol_from(byte, i) matches Some(s) ==> s <= 0x3FF,
    decreases 12 - i,
{
    if 0 <= i < 12 {
        lemma_control_symbol_fits(byte, i + 1);
    }
}

/// Encodes a byte, flagged or not as a control character, under the running
/// disparity; returns the symbol and the disparity after it.
pub fn encode_8b10b(data: u8, is_control: bool, disparity: Disparity) -> (r: (u16, Disparity))
    ensures
        r == encoded(data, is_control, disparity),
        r.0 <= 0x3FF,
{
    proof {
        crate::symbols::lemma_data_symbol(data);
        lemma_control_symbol_fits(data, 0);
    }
    let symbol_positive = if is_control {
        match control_symbol_for(data) {
            Some(s) => s,
            None => encode_table(data),
        }
    } else {
        encode_table(data)
    };
    let symbol = disparity.with_disparity(symbol_positive);
    proof {
        crate::bits::lemma_complement10(symbol_positive);
    }
    let new_disp = disparity.after_symbol(symbol);
    (symbol, new_disp)
}

/// Decodes a symbol received under the running disparity. A comma stands
/// for K28.5 and flips the disparity; otherwise the symbol must fit in ten
/// bits, have four to six set bits, and be sent for some byte.
pub fn decode_8b10b(symbol: u16, disparity: Disparity) -> (r: Option<(u8, bool, Disparity)>)
    ensures
        r == decoded(symbol, disparity),
{
    if is_comma(symbol) {
        return Some((K28_5, true, disparity.flip()));
    }
    if symbol > 0x3FF {
        return None;
    }
    let n = count_ones(symbol);
    if n < 4 || n > 6 {
        return None;
    }
    let symbol_positive = disparity.with_disparity(symbol);
    if let Some(code) = control_code_for(symbol_positive) {
        let new_disp = disparity.after_symbol(symbol);
        return Some((code, true, new_disp));
    }
    match decode_table(symbol_positive) {
        Some(decoded) => {
            let new_disp = disparity.after_symbol(symbol);
            Some((decoded, false, new_disp))
        },
        None => None,
    }
}

} // verus!
