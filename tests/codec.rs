use codec8b10b::bits::count_ones;
use codec8b10b::ser::{decode_8b10b_const, encode_8b10b_const, DataWord, Symbol};
use codec8b10b::symbols::{
    control_code_for, control_symbol_for, decode_table, encode_table, K23_7, K28_0, K28_5,
    K30_7,
};
use codec8b10b::{decode_8b10b, encode_8b10b, flip_disparity, is_comma, Disparity};

#[test]
fn test_encode_decode_neg() {
    for i in 0..u8::MAX {
        let s = encode_8b10b(i, false, Disparity::Negative);
        let d = decode_8b10b(s.0, Disparity::Negative);

        assert!(Some(i) == d.map(|x| x.0), "i={i}");
    }
}

#[test]
fn test_encode_decode_pos() {
    for i in 0..u8::MAX {
        let s = encode_8b10b(i, false, Disparity::Positive);
        let d = decode_8b10b(s.0, Disparity::Positive);

        assert!(Some(i) == d.map(|x| x.0), "i={i}");
    }
}

#[test]
fn encode_comma() {
    let sp = encode_8b10b(K28_5, true, Disparity::Negative);
    let sn = encode_8b10b(K28_5, true, Disparity::Positive);

    assert!(sp.0 == 0b0011111010);
    assert!(sn.0 == 0b1100000101);
}

#[test]
fn encode_decode_flipped_disparity_start_neg() {
    for i in 0..u8::MAX {
        let encoded = encode_8b10b(i, false, Disparity::Negative);
        let flipped = flip_disparity(encoded.0);
        let decoded = decode_8b10b(flipped, Disparity::Positive).unwrap();

        assert!(i == decoded.0);
    }
}

#[test]
fn encode_decode_flipped_disparity_start_pos() {
    for i in 0..u8::MAX {
        let encoded = encode_8b10b(i, false, Disparity::Positive);
        let flipped = flip_disparity(encoded.0);
        let decoded = decode_8b10b(flipped, Disparity::Negative).unwrap();

        assert!(i == decoded.0);
    }
}

#[test]
fn round_trip_every_byte_both_disparities() {
    for d in [Disparity::Negative, Disparity::Positive] {
        for i in 0..=u8::MAX {
            let (symbol, next) = encode_8b10b(i, false, d);
            assert!(symbol <= 0x3FF);
            assert_eq!(decode_8b10b(symbol, d), Some((i, false, next)), "i={i}");
        }
    }
}

#[test]
fn complement_symmetry_every_byte() {
    for d in [Disparity::Negative, Disparity::Positive] {
        for i in 0..=u8::MAX {
            let (symbol, _) = encode_8b10b(i, false, d);
            let flipped = flip_disparity(symbol);
            let decoded = decode_8b10b(flipped, d.flip()).unwrap();
            assert_eq!((decoded.0, decoded.1), (i, false), "i={i}");
            assert_eq!(decoded.2, d.flip().after_symbol(flipped));
        }
    }
}

#[test]
fn flip_twice_is_identity() {
    assert_eq!(Disparity::Negative.flip(), Disparity::Positive);
    assert_eq!(Disparity::Positive.flip(), Disparity::Negative);
    assert_eq!(Disparity::Negative.flip().flip(), Disparity::Negative);
    assert_eq!(Disparity::Positive.flip().flip(), Disparity::Positive);
}

#[test]
fn bit_count_rejection() {
    assert_eq!(decode_8b10b(0x000, Disparity::Positive), None);
    assert_eq!(decode_8b10b(0x3FF, Disparity::Positive), None);
    // three and seven set bits
    assert_eq!(decode_8b10b(0b0000000111, Disparity::Negative), None);
    assert_eq!(decode_8b10b(0b0001111111, Disparity::Negative), None);
}

#[test]
fn range_rejection() {
    assert_eq!(decode_8b10b(0x400, Disparity::Positive), None);
    assert_eq!(decode_8b10b(0x400 | 0b0110001011, Disparity::Positive), None);
    assert_eq!(Symbol::new(0x400, Disparity::Positive), None);
}

#[test]
fn unmapped_symbol_rejected() {
    // five set bits, but no byte has the 6-bit sub-block 111110
    assert_eq!(decode_8b10b(0b1111100000, Disparity::Positive), None);
    assert_eq!(decode_table(0b1111100000), None);
}

#[test]
fn tie_break_keeps_disparity() {
    // low six bits 000111 (three ones), next four bits 0011 (two ones)
    let s: u16 = 0b0011000111;
    assert_eq!(count_ones(s), 5);
    assert_eq!(Disparity::Negative.after_symbol(s), Disparity::Negative);
    assert_eq!(Disparity::Positive.after_symbol(s), Disparity::Positive);
}

#[test]
fn after_symbol_decisions() {
    assert_eq!(Disparity::Negative.after_symbol(0b0000111111), Disparity::Positive);
    assert_eq!(Disparity::Positive.after_symbol(0b0000001111), Disparity::Negative);
    // five ones, four of them in the low six bits
    assert_eq!(Disparity::Negative.after_symbol(0b0001001111), Disparity::Positive);
    // five ones, three of them in the next four bits
    assert_eq!(Disparity::Negative.after_symbol(0b0111000011), Disparity::Positive);
    // five ones, one of them above the ten bits, two in each sub-block
    assert_eq!(Disparity::Positive.after_symbol(0x400 | 0b0011000011), Disparity::Negative);
}

#[test]
fn comma_detection_and_decoding() {
    assert!(is_comma(0b0011111010));
    assert!(is_comma(0b1100000101));
    assert!(!is_comma(0b0011111011));
    assert_eq!(
        decode_8b10b(0b0011111010, Disparity::Negative),
        Some((K28_5, true, Disparity::Positive))
    );
    assert_eq!(
        decode_8b10b(0b1100000101, Disparity::Negative),
        Some((K28_5, true, Disparity::Positive))
    );
}

#[test]
fn control_characters_round_trip() {
    for code in [K28_0, K23_7, K30_7] {
        for d in [Disparity::Negative, Disparity::Positive] {
            let (symbol, next) = encode_8b10b(code, true, d);
            assert_eq!(decode_8b10b(symbol, d), Some((code, true, next)));
        }
    }
    assert_eq!(control_symbol_for(K28_0), Some(0b1100001011));
    assert_eq!(control_code_for(0b1000010111), Some(K30_7));
    assert_eq!(control_symbol_for(0x00), None);
}

#[test]
fn control_flag_falls_back_to_data() {
    assert_eq!(encode_8b10b(0x00, true, Disparity::Positive), encode_8b10b(0x00, false, Disparity::Positive));
    let (symbol, _) = encode_8b10b(0x00, true, Disparity::Positive);
    assert_eq!(decode_8b10b(symbol, Disparity::Positive).map(|x| (x.0, x.1)), Some((0x00, false)));
}

#[test]
fn data_table_values() {
    assert_eq!(encode_table(0x00), 0b0110001011);
    assert_eq!(encode_table(0xBC), 0b0011101010);
    assert_eq!(encode_table(0xEB), 0b1101001000);
    assert_eq!(encode_table(0xFF), 0b0101001110);
    assert_eq!(decode_table(0b0101001110), Some(0xFF));
    assert_eq!(encode_8b10b(0x00, false, Disparity::Negative).0, 0b1001110100);
}

#[test]
fn flip_disparity_inverts_ten_bits() {
    assert_eq!(flip_disparity(0b0000000000), 0b1111111111);
    assert_eq!(flip_disparity(0b0011111010), 0b1100000101);
    assert_eq!(flip_disparity(0xFFFF), 0);
    assert_eq!(Disparity::Negative.with_disparity(0b0110001011), 0b1001110100);
    assert_eq!(Disparity::Positive.with_disparity(0b0110001011), 0b0110001011);
}

#[test]
fn count_ones_values() {
    assert_eq!(count_ones(0), 0);
    assert_eq!(count_ones(0xFFFF), 16);
    assert_eq!(count_ones(0b1010_0000_0000_0001), 3);
}

#[test]
fn word_and_symbol_api() {
    let w = DataWord::new(0x42, false, Disparity::Negative);
    assert_eq!((w.byte(), w.is_control(), w.disparity()), (0x42, false, Disparity::Negative));
    let s = encode_8b10b_const(w);
    let (symbol, next) = encode_8b10b(0x42, false, Disparity::Negative);
    assert_eq!((s.symbol(), s.disparity()), (symbol, next));
    let back = decode_8b10b_const(Symbol::new(symbol, Disparity::Negative).unwrap()).unwrap();
    assert_eq!(back, DataWord::new(0x42, false, next));
    let checked = Symbol::new(0x3FF, Disparity::Positive).unwrap();
    assert_eq!(checked, Symbol::new_unchecked(0x3FF, Disparity::Positive));
    assert_eq!(decode_8b10b_const(checked), None);
}
