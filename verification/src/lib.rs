//! Parsing of Roman numeral strings into unsigned integers.
//!
//! The parser scans the input left to right, folding each symbol into a
//! small state machine that accumulates the total while enforcing the
//! grammar: runs of at most four identical symbols, at most one subtractive
//! pair per magnitude, no repeated five-type symbols, and non-increasing
//! magnitudes apart from the single step up that a subtractive pair allows.
//! The first violation is reported as a structured [`ParseError`].

pub mod error;
pub mod parse;
pub mod symbol;

pub use error::ParseError;
pub use parse::parse_roman_numerals;
pub use parse::FoldState;
pub use symbol::RomanNumeral;
