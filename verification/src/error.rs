//! Structured errors reported by the parser.

use vstd::prelude::*;

use crate::symbol::RomanNumeral;

verus! {

/// The first grammar violation found during a left-to-right scan.
///
/// Every error is detected at the exact point of violation and returned
/// immediately; no partial total is exposed alongside an error.
#[derive(Clone, Copy, Debug, PartialEq, Eq, Structural)]
pub enum ParseError {
    /// A character outside the seven recognized symbols, carrying the
    /// offending character.
    InvalidSymbol(char),
    /// A subtractive pair attempted against a symbol that was part of a
    /// multi-repeat run, or whose magnitude gap to the subtracted symbol is
    /// outside the allowed range of zero to one.
    InvalidSubtraction { current: RomanNumeral, staged: RomanNumeral, run_count: u8 },
    /// Two adjacent five-type symbols, carrying the repeated symbol.
    ConsecutiveFiveType(RomanNumeral),
    /// Any other transition not covered by the accepted cases.
    InvalidSequence,
}

} // verus!
