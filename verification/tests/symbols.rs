use roman_numerals::ParseError;
use roman_numerals::RomanNumeral;

const ALL: [RomanNumeral; 7] = [
    RomanNumeral::I,
    RomanNumeral::V,
    RomanNumeral::X,
    RomanNumeral::L,
    RomanNumeral::C,
    RomanNumeral::D,
    RomanNumeral::M,
];

#[test]
fn values_match_the_fixed_table() {
    let expected: [u64; 7] = [1, 5, 10, 50, 100, 500, 1000];
    for (symbol, value) in ALL.iter().zip(expected.iter()) {
        assert_eq!(symbol.value(), *value);
    }
}

#[test]
fn magnitudes_match_the_fixed_table() {
    let expected: [i8; 7] = [0, 0, 1, 1, 2, 2, 3];
    for (symbol, base) in ALL.iter().zip(expected.iter()) {
        assert_eq!(symbol.base(), *base);
    }
}

#[test]
fn five_types_are_exactly_v_l_d() {
    let expected = [false, true, false, true, false, true, false];
    for (symbol, five) in ALL.iter().zip(expected.iter()) {
        assert_eq!(symbol.is_five(), *five);
    }
}

#[test]
fn from_char_accepts_exactly_the_seven_symbols() {
    let letters = ['I', 'V', 'X', 'L', 'C', 'D', 'M'];
    for (letter, symbol) in letters.iter().zip(ALL.iter()) {
        assert_eq!(RomanNumeral::from_char(*letter), Ok(*symbol));
    }
    for bad in ['A', 'Z', 'i', 'v', '0', ' ', '?'] {
        assert_eq!(
            RomanNumeral::from_char(bad),
            Err(ParseError::InvalidSymbol(bad))
        );
    }
}
