use roman_numerals::parse_roman_numerals;
use roman_numerals::ParseError;
use roman_numerals::RomanNumeral;

#[test]
fn test_0() {
    assert_eq!(parse_roman_numerals(""), Ok(0));
}

#[test]
fn test_1() {
    assert_eq!(parse_roman_numerals("I"), Ok(1));
}

#[test]
fn test_4x1() {
    assert_eq!(parse_roman_numerals("IIII"), Ok(4));
}

#[test]
fn test_1_before_5() {
    assert_eq!(parse_roman_numerals("IV"), Ok(4));
}

#[test]
fn test_1_before_10() {
    assert_eq!(parse_roman_numerals("IX"), Ok(9));
}

#[test]
fn test_508() {
    assert_eq!(parse_roman_numerals("DVIII"), Ok(508));
}

#[test]
fn test_9() {
    assert_eq!(parse_roman_numerals("VIV"), Ok(9));
}

#[test]
fn test_1989() {
    assert_eq!(parse_roman_numerals("MCMLXXXIX"), Ok(1989));
}

#[test]
fn test_2019() {
    assert_eq!(parse_roman_numerals("MMXIX"), Ok(2019));
}

#[test]
fn test_9x2() {
    assert_eq!(parse_roman_numerals("VIVV"), Err(ParseError::InvalidSequence));
}

#[test]
fn test_2x5() {
    assert_eq!(
        parse_roman_numerals("VV"),
        Err(ParseError::ConsecutiveFiveType(RomanNumeral::V))
    );
}

#[test]
fn test_3x1_before_5() {
    assert_eq!(
        parse_roman_numerals("IIIV"),
        Err(ParseError::InvalidSubtraction {
            current: RomanNumeral::V,
            staged: RomanNumeral::I,
            run_count: 3,
        })
    );
}

#[test]
fn single_symbols_map_to_their_values() {
    assert_eq!(parse_roman_numerals("I"), Ok(1));
    assert_eq!(parse_roman_numerals("V"), Ok(5));
    assert_eq!(parse_roman_numerals("X"), Ok(10));
    assert_eq!(parse_roman_numerals("L"), Ok(50));
    assert_eq!(parse_roman_numerals("C"), Ok(100));
    assert_eq!(parse_roman_numerals("D"), Ok(500));
    assert_eq!(parse_roman_numerals("M"), Ok(1000));
}

#[test]
fn parsing_twice_gives_the_same_result() {
    let inputs = ["", "I", "MCMLXXXIX", "IIII", "VV", "VIVV", "IIIV", "ABC"];
    for input in inputs {
        assert_eq!(parse_roman_numerals(input), parse_roman_numerals(input));
    }
}

#[test]
fn unrecognized_character_is_reported() {
    assert_eq!(parse_roman_numerals("A"), Err(ParseError::InvalidSymbol('A')));
    assert_eq!(parse_roman_numerals("MMA"), Err(ParseError::InvalidSymbol('A')));
    assert_eq!(parse_roman_numerals("AVV"), Err(ParseError::InvalidSymbol('A')));
    assert_eq!(parse_roman_numerals("i"), Err(ParseError::InvalidSymbol('i')));
    assert_eq!(parse_roman_numerals("X?I"), Err(ParseError::InvalidSymbol('?')));
}

#[test]
fn earlier_grammar_violation_wins_over_later_bad_character() {
    assert_eq!(
        parse_roman_numerals("VVA"),
        Err(ParseError::ConsecutiveFiveType(RomanNumeral::V))
    );
}

#[test]
fn fifth_repeat_is_rejected() {
    assert_eq!(parse_roman_numerals("IIIII"), Err(ParseError::InvalidSequence));
    assert_eq!(parse_roman_numerals("MMMM"), Ok(4000));
    assert_eq!(parse_roman_numerals("MMMMI"), Err(ParseError::InvalidSequence));
}

#[test]
fn subtraction_from_a_repeated_run_is_rejected() {
    assert_eq!(
        parse_roman_numerals("IIV"),
        Err(ParseError::InvalidSubtraction {
            current: RomanNumeral::V,
            staged: RomanNumeral::I,
            run_count: 2,
        })
    );
    assert_eq!(
        parse_roman_numerals("XXC"),
        Err(ParseError::InvalidSubtraction {
            current: RomanNumeral::C,
            staged: RomanNumeral::X,
            run_count: 2,
        })
    );
}

#[test]
fn magnitude_gap_of_at_most_one_bounds_subtractive_pairs() {
    // The gap test is on magnitudes, not symbol order: a gap of zero or one
    // is accepted, anything wider is rejected.
    assert_eq!(parse_roman_numerals("VL"), Ok(45));
    assert_eq!(parse_roman_numerals("DM"), Ok(500));
    assert_eq!(
        parse_roman_numerals("IC"),
        Err(ParseError::InvalidSubtraction {
            current: RomanNumeral::C,
            staged: RomanNumeral::I,
            run_count: 1,
        })
    );
    assert_eq!(
        parse_roman_numerals("IM"),
        Err(ParseError::InvalidSubtraction {
            current: RomanNumeral::M,
            staged: RomanNumeral::I,
            run_count: 1,
        })
    );
}

#[test]
fn no_symbol_of_a_spent_magnitude_after_a_subtractive_pair() {
    assert_eq!(parse_roman_numerals("IXI"), Err(ParseError::InvalidSequence));
    assert_eq!(parse_roman_numerals("XCX"), Err(ParseError::InvalidSequence));
    assert_eq!(parse_roman_numerals("IVI"), Err(ParseError::InvalidSequence));
}

#[test]
fn consecutive_five_types_are_rejected() {
    assert_eq!(
        parse_roman_numerals("LL"),
        Err(ParseError::ConsecutiveFiveType(RomanNumeral::L))
    );
    assert_eq!(
        parse_roman_numerals("DD"),
        Err(ParseError::ConsecutiveFiveType(RomanNumeral::D))
    );
    assert_eq!(
        parse_roman_numerals("MDD"),
        Err(ParseError::ConsecutiveFiveType(RomanNumeral::D))
    );
}

#[test]
fn additive_runs_accumulate() {
    assert_eq!(parse_roman_numerals("III"), Ok(3));
    assert_eq!(parse_roman_numerals("XXXVI"), Ok(36));
    assert_eq!(parse_roman_numerals("MMXXV"), Ok(2025));
    assert_eq!(parse_roman_numerals("DCCCLXXXVIII"), Ok(888));
    assert_eq!(parse_roman_numerals("VIIII"), Ok(9));
}

#[test]
fn rising_magnitude_without_subtraction_is_rejected() {
    assert_eq!(parse_roman_numerals("VX"), Ok(5));
    assert_eq!(parse_roman_numerals("IXX"), Err(ParseError::InvalidSequence));
}
