//! The positive-disparity symbol tables: each byte's 10-bit symbol, built
//! from a 6-bit and a 4-bit sub-block (bits `abcdei fghj`, `a` highest), its
//! inverse, and the reserved control characters.

use vstd::prelude::*;

use crate::bits::{count_ones, ones};

verus! {

pub const K28_0: u8 = 0x1C;
pub const K28_1: u8 = 0x3C;
pub const K28_2: u8 = 0x5C;
pub const K28_3: u8 = 0x7C;
pub const K28_4: u8 = 0x9C;
/// The comma character.
pub const K28_5: u8 = 0xBC;
pub const K28_6: u8 = 0xDC;
pub const K28_7: u8 = 0xFC;
pub const K23_7: u8 = 0xF7;
pub const K27_7: u8 = 0xFB;
pub const K29_7: u8 = 0xFD;
pub const K30_7: u8 = 0xFE;

/// The number of reserved control characters.
pub const CONTROL_COUNT: usize = 12;

/// Marks a symbol that no byte is sent as, in the bit-level inverse below.
pub const NOT_FOUND: u16 = 0x100;

/// The 6-bit sub-block sent for the low five bits `x` of a byte, under
/// positive disparity.
pub open spec fn six_code(x: u8) -> u16 {
    if x == 0 { 0b011000 }
    else if x == 1 { 0b100010 }
    else if x == 2 { 0b010010 }
    else if x == 3 { 0b110001 }
    else if x == 4 { 0b001010 }
    else if x == 5 { 0b101001 }
    else if x == 6 { 0b011001 }
    else if x == 7 { 0b000111 }
    else if x == 8 { 0b000110 }
    else if x == 9 { 0b100101 }
    else if x == 10 { 0b010101 }
    else if x == 11 { 0b110100 }
    else if x == 12 { 0b001101 }
    else if x == 13 { 0b101100 }
    else if x == 14 { 0b011100 }
    else if x == 15 { 0b101000 }
    else if x == 16 { 0b100100 }
    else if x == 17 { 0b100011 }
    else if x == 18 { 0b010011 }
    else if x == 19 { 0b110010 }
    else if x == 20 { 0b001011 }
    else if x == 21 { 0b101010 }
    else if x == 22 { 0b011010 }
    else if x == 23 { 0b000101 }
    else if x == 24 { 0b001100 }
    else if x == 25 { 0b100110 }
    else if x == 26 { 0b010110 }
    else if x == 27 { 0b001001 }
    else if x == 28 { 0b001110 }
    else if x == 29 { 0b010001 }
    else if x == 30 { 0b100001 }
    else { 0b010100 }
}

/// The 4-bit sub-block for the high three bits `y` of a byte, after a 6-bit
/// sub-block that left the disparity negative.
pub open spec fn four_code_minus(y: u8) -> u16 {
    if y == 0 { 0b1011 }
    else if y == 1 { 0b1001 }
    else if y == 2 { 0b0101 }
    else if y == 3 { 0b1100 }
    else if y == 4 { 0b1101 }
    else if y == 5 { 0b1010 }
    else if y == 6 { 0b0110 }
    else { 0b1110 }
}

/// The 4-bit sub-block for the high three bits `y` of a byte, after a 6-bit
/// sub-block that left the disparity positive.
pub open spec fn four_code_plus(y: u8) -> u16 {
    if y == 0 { 0b0100 }
    else if y == 1 { 0b1001 }
    else if y == 2 { 0b0101 }
    else if y == 3 { 0b0011 }
    else if y == 4 { 0b0010 }
    else if y == 5 { 0b1010 }
    else if y == 6 { 0b0110 }
    else { 0b0001 }
}

/// Whether the byte with low five bits `x` and high bits 7 takes the
/// alternate 4-bit sub-block, which avoids a run of five equal bits.
pub open spec fn takes_alternate_seven(x: u8) -> bool {
    x == 11 || x == 13 || x == 14
}

/// The 4-bit sub-block of the byte with low five bits `x` and high three
/// bits `y`: its column follows the disparity that the 6-bit sub-block left.
pub open spec fn four_code(x: u8, y: u8) -> u16 {
    if ones(six_code(x)) < 3 {
        four_code_minus(y)
    } else if y == 7 && takes_alternate_seven(x) {
        0b1000
    } else {
        four_code_plus(y)
    }
}

/// The positive-disparity symbol of a data byte.
pub open spec fn data_symbol(byte: u8) -> u16 {
    (six_code(byte & 0x1F) << 4u16) | four_code(byte & 0x1F, byte >> 5u8)
}

/// The low five bits of the byte whose 6-bit sub-block is `c`, or 0xFF.
pub open spec fn six_value(c: u16) -> u8 {
    if c == 0b011000 { 0 }
    else if c == 0b100010 { 1 }
    else if c == 0b010010 { 2 }
    else if c == 0b110001 { 3 }
    else if c == 0b001010 { 4 }
    else if c == 0b101001 { 5 }
    else if c == 0b011001 { 6 }
    else if c == 0b000111 { 7 }
    else if c == 0b000110 { 8 }
    else if c == 0b100101 { 9 }
    else if c == 0b010101 { 10 }
    else if c == 0b110100 { 11 }
    else if c == 0b001101 { 12 }
    else if c == 0b101100 { 13 }
    else if c == 0b011100 { 14 }
    else if c == 0b101000 { 15 }
    else if c == 0b100100 { 16 }
    else if c == 0b100011 { 17 }
    else if c == 0b010011 { 18 }
    else if c == 0b110010 { 19 }
    else if c == 0b001011 { 20 }
    else if c == 0b101010 { 21 }
    else if c == 0b011010 { 22 }
    else if c == 0b000101 { 23 }
    else if c == 0b001100 { 24 }
    else if c == 0b100110 { 25 }
    else if c == 0b010110 { 26 }
    else if c == 0b001001 { 27 }
    else if c == 0b001110 { 28 }
    else if c == 0b010001 { 29 }
    else if c == 0b100001 { 30 }
    else if c == 0b010100 { 31 }
    else { 0xFF }
}

/// The high three bits of the byte whose 4-bit sub-block is `c`, in either
/// column, or 0xFF.
pub open spec fn four_value(c: u16) -> u8 {
    if c == 0b1011 || c == 0b0100 { 0 }
    else if c == 0b1001 { 1 }
    else if c == 0b0101 { 2 }
    else if c == 0b1100 || c == 0b0011 { 3 }
    else if c == 0b1101 || c == 0b0010 { 4 }
    else if c == 0b1010 { 5 }
    else if c == 0b0110 { 6 }
    else if c == 0b1110 || c == 0b0001 || c == 0b1000 { 7 }
    else { 0xFF }
}

/// The only byte whose data symbol `s` can be, read off its two
/// sub-blocks, or `NOT_FOUND`.
pub open spec fn candidate_byte(s: u16) -> u16 {
    let x = six_value(s >> 4u16);
    let y = four_value(s & 0xF);
    if s <= 0x3FF && x < 32 && y < 8 {
        ((y << 5u8) | x) as u16
    } else {
        NOT_FOUND
    }
}

/// The data byte whose positive-disparity symbol is `s`, if there is one.
pub open spec fn data_byte(s: u16) -> Option<u8> {
    if exists|b: u8| data_symbol(b) == s {
        Some(choose|b: u8| data_symbol(b) == s)
    } else {
        None
    }
}

/// The control characters' codes, in table order.
pub open spec fn control_code(i: int) -> u8 {
    if i == 0 { K28_0 }
    else if i == 1 { K28_1 }
    else if i == 2 { K28_2 }
    else if i == 3 { K28_3 }
    else if i == 4 { K28_4 }
    else if i == 5 { K28_5 }
    else if i == 6 { K28_6 }
    else if i == 7 { K28_7 }
    else if i == 8 { K23_7 }
    else if i == 9 { K27_7 }
    else if i == 10 { K29_7 }
    else { K30_7 }
}

/// The control characters' positive-disparity symbols, in table order.
pub open spec fn control_symbol(i: int) -> u16 {
    if i == 0 { 0b1100001011 }
    else if i == 1 { 0b1100000110 }
    else if i == 2 { 0b1100001010 }
    else if i == 3 { 0b1100001100 }
    else if i == 4 { 0b1100001101 }
    else if i == 5 { 0b1100000101 }
    else if i == 6 { 0b1100001001 }
    else if i == 7 { 0b1100000111 }
    else if i == 8 { 0b0001010111 }
    else if i == 9 { 0b0010010111 }
    else if i == 10 { 0b0100010111 }
    else { 0b1000010111 }
}

/// Whether `s` is the positive-disparity symbol of a control character.
pub open spec fn is_control_symbol(s: u16) -> bool {
    s == 0b1100001011 || s == 0b1100000110 || s == 0b1100001010 || s == 0b1100001100
        || s == 0b1100001101 || s == 0b1100000101 || s == 0b1100001001 || s == 0b1100000111
        || s == 0b0001010111 || s == 0b0010010111 || s == 0b0100010111 || s == 0b1000010111
}

/// The symbol of the first control entry, from index `i` on, whose code is
/// `byte`.
pub open spec fn control_symbol_from(byte: u8, i: int) -> Option<u16>
    decreases 12 - i,
{
    if i < 0 || i >= 12 {
        None
    } else if control_code(i) == byte {
        Some(control_symbol(i))
    } else {
        control_symbol_from(byte, i + 1)
    }
}

/// The code of the first control entry, from index `i` on, whose symbol is
/// `s`.
pub open spec fn control_code_from(s: u16, i: int) -> Option<u8>
    decreases 12 - i,
{
    if i < 0 || i >= 12 {
        None
    } else if control_symbol(i) == s {
        Some(control_code(i))
    } else {
        control_code_from(s, i + 1)
    }
}

/// The positive-disparity symbol of a control character, if `byte` is one.
pub open spec fn control_symbol_of(byte: u8) -> Option<u16> {
    control_symbol_from(byte, 0)
}

/// The control character whose positive-disparity symbol is `s`, if any.
pub open spec fn control_code_of(s: u16) -> Option<u8> {
    control_code_from(s, 0)
}

/// What the data table says of one byte: its symbol fits in ten bits, has
/// four to six set bits, is no comma and no control symbol, and its
/// sub-blocks lead back to the byte.
pub proof fn lemma_data_symbol(b: u8)
    by (bit_vector)
    ensures
        data_symbol(b) <= 0x3FF,
        4 <= ones(data_symbol(b)) <= 6,
        data_symbol(b) != 0b0011111010,
        data_symbol(b) != 0b1100000101,
        !is_control_symbol(data_symbol(b)),
        candidate_byte(data_symbol(b)) == b as u16,
{
}

fn six_code_of(x: u8) -> (r: u16)
    ensures
        r == six_code(x),
{
    match x {
        0 => 0b011000,
        1 => 0b100010,
        2 => 0b010010,
        3 => 0b110001,
        4 => 0b001010,
        5 => 0b101001,
        6 => 0b011001,
        7 => 0b000111,
        8 => 0b000110,
        9 => 0b100101,
        10 => 0b010101,
        11 => 0b110100,
        12 => 0b001101,
        13 => 0b101100,
        14 => 0b011100,
        15 => 0b101000,
        16 => 0b100100,
        17 => 0b100011,
        18 => 0b010011,
        19 => 0b110010,
        20 => 0b001011,
        21 => 0b101010,
        22 => 0b011010,
        23 => 0b000101,
        24 => 0b001100,
        25 => 0b100110,
        26 => 0b010110,
        27 => 0b001001,
        28 => 0b001110,
        29 => 0b010001,
        30 => 0b100001,
        _ => 0b010100,
    }
}

fn four_code_minus_of(y: u8) -> (r: u16)
    ensures
        r == four_code_minus(y),
{
    match y {
        0 => 0b1011,
        1 => 0b1001,
        2 => 0b0101,
        3 => 0b1100,
        4 => 0b1101,
        5 => 0b1010,
        6 => 0b0110,
        _ => 0b1110,
    }
}

fn four_code_plus_of(y: u8) -> (r: u16)
    ensures
        r == four_code_plus(y),
{
    match y {
        0 => 0b0100,
        1 => 0b1001,
        2 => 0b0101,
        3 => 0b0011,
        4 => 0b0010,
        5 => 0b1010,
        6 => 0b0110,
        _ => 0b0001,
    }
}

fn six_value_of(c: u16) -> (r: u8)
    ensures
        r == six_value(c),
{
    match c {
        0b011000 => 0,
        0b100010 => 1,
        0b010010 => 2,
        0b110001 => 3,
        0b001010 => 4,
        0b101001 => 5,
        0b011001 => 6,
        0b000111 => 7,
        0b000110 => 8,
        0b100101 => 9,
        0b010101 => 10,
        0b110100 => 11,
        0b001101 => 12,
        0b101100 => 13,
        0b011100 => 14,
        0b101000 => 15,
        0b100100 => 16,
        0b100011 => 17,
        0b010011 => 18,
        0b110010 => 19,
        0b001011 => 20,
        0b101010 => 21,
        0b011010 => 22,
        0b000101 => 23,
        0b001100 => 24,
        0b100110 => 25,
        0b010110 => 26,
        0b001001 => 27,
        0b001110 => 28,
        0b010001 => 29,
        0b100001 => 30,
        0b010100 => 31,
        _ => 0xFF,
    }
}

fn four_value_of(c: u16) -> (r: u8)
    ensures
        r == four_value(c),
{
    match c {
        0b1011 | 0b0100 => 0,
        0b1001 => 1,
        0b0101 => 2,
        0b1100 | 0b0011 => 3,
        0b1101 | 0b0010 => 4,
        0b1010 => 5,
        0b0110 => 6,
        0b1110 | 0b0001 | 0b1000 => 7,
        _ => 0xFF,
    }
}

/// The positive-disparity symbol of a data byte.
pub fn encode_table(byte: u8) -> (r: u16)
    ensures
        r == data_symbol(byte),
        r <= 0x3FF,
{
    proof {
        lemma_data_symbol(byte);
    }
    let x = byte & 0x1F;
    let y = byte >> 5u8;
    let six = six_code_of(x);
    let four = if count_ones(six) < 3 {
        four_code_minus_of(y)
    } else if y == 7 && (x == 11 || x == 13 || x == 14) {
        0b1000
    } else {
        four_code_plus_of(y)
    };
    (six << 4u16) | four
}

/// The data byte whose positive-disparity symbol is `s`, if there is one.
pub fn decode_table(s: u16) -> (r: Option<u8>)
    ensures
        r == data_byte(s),
{
    let x = six_value_of(s >> 4u16);
    let y = four_value_of(s & 0xF);
    if s <= 0x3FF && x < 32 && y < 8 {
        let b: u8 = (y << 5u8) | x;
        assert(candidate_byte(s) == b as u16);
        if encode_table(b) == s {
            proof {
                let c = choose|c: u8| data_symbol(c) == s;
                lemma_data_symbol(c);
            }
            return Some(b);
        }
    }
    proof {
        assert forall|c: u8| data_symbol(c) != s by {
            lemma_data_symbol(c);
        }
    }
    None
}

/// One entry of the control table: a control character and its
/// positive-disparity symbol.
pub fn control_entry(i: usize) -> (r: (u8, u16))
    requires
        i < CONTROL_COUNT,
    ensures
        r == (control_code(i as int), control_symbol(i as int)),
{
    match i {
        0 => (K28_0, 0b1100001011),
        1 => (K28_1, 0b1100000110),
        2 => (K28_2, 0b1100001010),
        3 => (K28_3, 0b1100001100),
        4 => (K28_4, 0b1100001101),
        5 => (K28_5, 0b1100000101),
        6 => (K28_6, 0b1100001001),
        7 => (K28_7, 0b1100000111),
        8 => (K23_7, 0b0001010111),
        9 => (K27_7, 0b0010010111),
        10 => (K29_7, 0b0100010111),
        _ => (K30_7, 0b1000010111),
    }
}

/// Scans the control table for `byte`.
pub fn control_symbol_for(byte: u8) -> (r: Option<u16>)
    ensures
        r == control_symbol_of(byte),
{
    let mut i: usize = 0;
    while i < CONTROL_COUNT
        invariant
            i <= CONTROL_COUNT,
            control_symbol_from(byte, 0) == control_symbol_from(byte, i as int),
        decreases CONTROL_COUNT - i,
    {
        let (code, symbol) = control_entry(i);
        if code == byte {
            return Some(symbol);
        }
        i += 1;
    }
    None
}

/// Scans the control table for the positive-disparity symbol `s`.
pub fn control_code_for(s: u16) -> (r: Option<u8>)
    ensures
        r == control_code_of(s),
{
    let mut i: usize = 0;
    while i < CONTROL_COUNT
        invariant
            i <= CONTROL_COUNT,
            control_code_from(s, 0) == control_code_from(s, i as int),
        decreases CONTROL_COUNT - i,
    {
        let (code, symbol) = control_entry(i);
        if symbol == s {
            return Some(code);
        }
        i += 1;
    }
    None
}

/// No control entry has a symbol that `is_control_symbol` rejects.
pub proof fn lemma_not_control_symbol(s: u16, i: int)
    requires
        !is_control_symbol(s),
    ensures
        control_code_from(s, i) == None::<u8>,
    decreases 12 - i,
{
    if 0 <= i < 12 {
        lemma_not_control_symbol(s, i + 1);
    }
}

/// The data table's inverse gives each byte back.
pub proof fn lemma_data_byte(b: u8)
    ensures
        data_byte(data_symbol(b)) == Some(b),
{
    lemma_data_symbol(b);
    let c = choose|c: u8| data_symbol(c) == data_symbol(b);
    lemma_data_symbol(c);
}

} // verus!
