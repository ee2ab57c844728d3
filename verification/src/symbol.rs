//! The seven Roman numeral symbols and their fixed attributes.

use vstd::prelude::*;

use crate::error::ParseError;

verus! {

/// One of the seven Roman numeral symbols: I, V, X, L, C, D and M.
///
/// Each symbol carries a fixed value, a magnitude (the power of ten of its
/// value) and a five-type flag (whether it stands for five times a power of
/// ten rather than one times a power of ten).
#[derive(Clone, Copy, Debug, PartialEq, Eq, Structural)]
pub enum RomanNumeral {
    I,
    V,
    X,
    L,
    C,
    D,
    M,
}

impl RomanNumeral {
    /// The number this symbol represents.
    pub open spec fn spec_value(self) -> u64 {
        match self {
            RomanNumeral::I => 1,
            RomanNumeral::V => 5,
            RomanNumeral::X => 10,
            RomanNumeral::L => 50,
            RomanNumeral::C => 100,
            RomanNumeral::D => 500,
            RomanNumeral::M => 1000,
        }
    }

    /// The value of a roman numeral is the number it represents.
    pub fn value(&self) -> (v: u64)
        ensures
            v == self.spec_value(),
    {
        match self {
            RomanNumeral::I => 1,
            RomanNumeral::V => 5,
            RomanNumeral::X => 10,
            RomanNumeral::L => 50,
            RomanNumeral::C => 100,
            RomanNumeral::D => 500,
            RomanNumeral::M => 1000,
        }
    }

    /// The power of ten of this symbol's value: 0 for I and V, 1 for X and
    /// L, 2 for C and D, 3 for M.
    pub open spec fn spec_base(self) -> i8 {
        match self {
            RomanNumeral::I => 0,
            RomanNumeral::V => 0,
            RomanNumeral::X => 1,
            RomanNumeral::L => 1,
            RomanNumeral::C => 2,
            RomanNumeral::D => 2,
            RomanNumeral::M => 3,
        }
    }

    /// The base of a roman numeral is the power of 10 that it represents,
    /// classified by exact integer lookup.
    pub fn base(&self) -> (b: i8)
        ensures
            b == self.spec_base(),
    {
        match self {
            RomanNumeral::I => 0,
            RomanNumeral::V => 0,
            RomanNumeral::X => 1,
            RomanNumeral::L => 1,
            RomanNumeral::C => 2,
            RomanNumeral::D => 2,
            RomanNumeral::M => 3,
        }
    }

    /// Whether this symbol stands for five times a power of ten.
    pub open spec fn spec_is_five(self) -> bool {
        self == RomanNumeral::V || self == RomanNumeral::L || self == RomanNumeral::D
    }

    /// Whether the roman numeral is a five, e.g. V, L, D.
    pub fn is_five(&self) -> (f: bool)
        ensures
            f == self.spec_is_five(),
    {
        matches!(self, RomanNumeral::V | RomanNumeral::L | RomanNumeral::D)
    }

    /// The symbol a character denotes, if it denotes one.
    pub open spec fn spec_from_char(c: char) -> Option<RomanNumeral> {
        if c == 'I' {
            Some(RomanNumeral::I)
        } else if c == 'V' {
            Some(RomanNumeral::V)
        } else if c == 'X' {
            Some(RomanNumeral::X)
        } else if c == 'L' {
            Some(RomanNumeral::L)
        } else if c == 'C' {
            Some(RomanNumeral::C)
        } else if c == 'D' {
            Some(RomanNumeral::D)
        } else if c == 'M' {
            Some(RomanNumeral::M)
        } else {
            None
        }
    }

    /// Maps a character to its symbol; any character other than the seven
    /// recognized uppercase letters is rejected as an invalid symbol.
    pub fn from_char(c: char) -> (r: Result<RomanNumeral, ParseError>)
        ensures
            match RomanNumeral::spec_from_char(c) {
                Some(sym) => r == Ok::<RomanNumeral, ParseError>(sym),
                None => r == Err::<RomanNumeral, ParseError>(ParseError::InvalidSymbol(c)),
            },
    {
        match c {
            'I' => Ok(RomanNumeral::I),
            'V' => Ok(RomanNumeral::V),
            'X' => Ok(RomanNumeral::X),
            'L' => Ok(RomanNumeral::L),
            'C' => Ok(RomanNumeral::C),
            'D' => Ok(RomanNumeral::D),
            'M' => Ok(RomanNumeral::M),
            _ => Err(ParseError::InvalidSymbol(c)),
        }
    }
}

/// Ten to the power `n`.
pub open spec fn pow10(n: nat) -> nat
    decreases n,
{
    if n == 0 {
        1
    } else {
        10 * pow10((n - 1) as nat)
    }
}

/// Law: a symbol's magnitude is the exact power-of-ten order of its value.
/// Every symbol's value is one or five times ten to its magnitude: one for
/// the unit symbols I, X, C and M, five for the five-type symbols V, L and D.
pub proof fn lemma_symbol_magnitude(s: RomanNumeral)
    ensures
        s.spec_value() == (if s.spec_is_five() {
            5nat
        } else {
            1nat
        }) * pow10(s.spec_base() as nat),
{
    reveal_with_fuel(pow10, 4);
}

} // verus!
