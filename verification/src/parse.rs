//! The left-to-right validating fold that accumulates a numeral's value.

use vstd::prelude::*;

use crate::error::ParseError;
use crate::symbol::RomanNumeral;

verus! {

/// Sentinel for `run_magnitude` meaning "no constraint yet": one above the
/// largest symbol magnitude, so every symbol satisfies the magnitude test.
pub const RUN_MAGNITUDE_UNCONSTRAINED: i8 = 4;

/// The state of the fold over the symbol sequence.
///
/// `accumulator` holds the total committed so far, `run_magnitude` and
/// `run_count` describe the current run of identical symbols, and `staged`
/// holds the most recent symbol, kept back because it might still form a
/// subtractive pair with the next one.
#[derive(Clone, Copy, Debug)]
pub struct FoldState {
    pub accumulator: u64,
    pub run_magnitude: i8,
    pub run_count: u8,
    pub staged: Option<RomanNumeral>,
}

impl FoldState {
    /// The state before any symbol has been processed.
    pub open spec fn spec_init() -> FoldState {
        FoldState {
            accumulator: 0,
            run_magnitude: RUN_MAGNITUDE_UNCONSTRAINED,
            run_count: 0,
            staged: None,
        }
    }

    /// Returns the initial fold state.
    pub fn init() -> (st: FoldState)
        ensures
            st == FoldState::spec_init(),
            st.wf(),
    {
        FoldState {
            accumulator: 0,
            run_magnitude: RUN_MAGNITUDE_UNCONSTRAINED,
            run_count: 0,
            staged: None,
        }
    }

    /// The value of the staged symbol, or zero with nothing staged.
    pub open spec fn staged_value(self) -> int {
        match self.staged {
            Some(s) => s.spec_value() as int,
            None => 0,
        }
    }

    /// The total the fold would produce if the input ended here: the
    /// committed accumulator plus any still-staged symbol.
    pub open spec fn spec_total(self) -> int {
        self.accumulator + self.staged_value()
    }

    /// Extra headroom charged for a staged five-type symbol: a unit symbol
    /// of the same magnitude may still follow it without lowering the run
    /// magnitude, and this term pays for that addition.
    pub open spec fn staged_five_headroom(self) -> int {
        match self.staged {
            Some(s) => if s.spec_is_five() {
                2 * unit_value_at(s.spec_base())
            } else {
                0
            },
            None => 0,
        }
    }

    /// A potential that every transition of the fold strictly decreases.
    /// It starts at 170000 in the initial state, so it bounds the
    /// accumulator in every reachable state and rules out overflow.
    pub open spec fn potential(self) -> int {
        self.accumulator + self.staged_value() + self.staged_five_headroom() + (4
            - self.run_count) * 5000 + 30000 * (self.run_magnitude + 1)
    }

    /// Well-formedness of a fold state: the invariants the fold maintains.
    pub open spec fn wf(self) -> bool {
        &&& -1 <= self.run_magnitude <= RUN_MAGNITUDE_UNCONSTRAINED
        &&& self.run_count <= 4
        &&& match self.staged {
            Some(s) => {
                &&& s.spec_base() == self.run_magnitude
                &&& 1 <= self.run_count
                &&& (s.spec_is_five() ==> self.run_count == 1)
            },
            None => self.run_count == 0,
        }
        &&& self.potential() <= 170000
    }

    /// The pure transition of the fold: what one incoming symbol does to
    /// the state, or the error it provokes, with the cases tried in this
    /// order: stage onto an empty slot, complete a subtractive pair, commit
    /// the staged symbol and continue or restart the run, otherwise reject.
    pub open spec fn spec_step(self, current: RomanNumeral) -> Result<FoldState, ParseError> {
        match self.staged {
            None => {
                if self.run_magnitude >= current.spec_base() && self.run_count < 4 {
                    Ok(FoldState {
                        accumulator: self.accumulator,
                        run_magnitude: current.spec_base(),
                        run_count: 1,
                        staged: Some(current),
                    })
                } else {
                    Err(ParseError::InvalidSequence)
                }
            },
            Some(staged) => {
                if current.spec_value() > staged.spec_value() {
                    if self.run_count > 1 {
                        Err(ParseError::InvalidSubtraction {
                            current,
                            staged,
                            run_count: self.run_count,
                        })
                    } else if !(0 <= current.spec_base() - staged.spec_base() <= 1) {
                        Err(ParseError::InvalidSubtraction {
                            current,
                            staged,
                            run_count: self.run_count,
                        })
                    } else {
                        Ok(FoldState {
                            accumulator: (self.accumulator + current.spec_value()
                                - staged.spec_value()) as u64,
                            run_magnitude: (staged.spec_base() - 1) as i8,
                            run_count: 0,
                            staged: None,
                        })
                    }
                } else if self.run_magnitude >= current.spec_base() && self.run_count < 4 {
                    if current == staged {
                        if current.spec_is_five() {
                            Err(ParseError::ConsecutiveFiveType(current))
                        } else {
                            Ok(FoldState {
                                accumulator: (self.accumulator + staged.spec_value()) as u64,
                                run_magnitude: self.run_magnitude,
                                run_count: (self.run_count + 1) as u8,
                                staged: Some(current),
                            })
                        }
                    } else {
                        Ok(FoldState {
                            accumulator: (self.accumulator + staged.spec_value()) as u64,
                            run_magnitude: current.spec_base(),
                            run_count: 1,
                            staged: Some(current),
                        })
                    }
                } else {
                    Err(ParseError::InvalidSequence)
                }
            },
        }
    }

    /// Folds one symbol into the state, or returns the first error.
    pub fn step(self, current: RomanNumeral) -> (r: Result<FoldState, ParseError>)
        requires
            self.wf(),
        ensures
            r == self.spec_step(current),
            r matches Ok(st) ==> st.wf(),
    {
        proof {
            self.lemma_accumulator_bounded();
        }
        match self.staged {
            None => {
                if self.run_magnitude >= current.base() && self.run_count < 4 {
                    Ok(FoldState {
                        accumulator: self.accumulator,
                        run_magnitude: current.base(),
                        run_count: 1,
                        staged: Some(current),
                    })
                } else {
                    Err(ParseError::InvalidSequence)
                }
            },
            Some(staged) => {
                if current.value() > staged.value() {
                    if self.run_count > 1 {
                        Err(ParseError::InvalidSubtraction {
                            current,
                            staged,
                            run_count: self.run_count,
                        })
                    } else {
                        let gap: i8 = current.base() - staged.base();
                        if !(0 <= gap && gap <= 1) {
                            Err(ParseError::InvalidSubtraction {
                                current,
                                staged,
                                run_count: self.run_count,
                            })
                        } else {
                            Ok(FoldState {
                                accumulator: self.accumulator + (current.value() - staged.value()),
                                run_magnitude: staged.base() - 1,
                                run_count: 0,
                                staged: None,
                            })
                        }
                    }
                } else if self.run_magnitude >= current.base() && self.run_count < 4 {
                    if current == staged {
                        if current.is_five() {
                            Err(ParseError::ConsecutiveFiveType(current))
                        } else {
                            Ok(FoldState {
                                accumulator: self.accumulator + staged.value(),
                                run_magnitude: self.run_magnitude,
                                run_count: self.run_count + 1,
                                staged: Some(current),
                            })
                        }
                    } else {
                        Ok(FoldState {
                            accumulator: self.accumulator + staged.value(),
                            run_magnitude: current.base(),
                            run_count: 1,
                            staged: Some(current),
                        })
                    }
                } else {
                    Err(ParseError::InvalidSequence)
                }
            },
        }
    }

    /// In a well-formed state the accumulator is bounded by the potential.
    pub proof fn lemma_accumulator_bounded(self)
        requires
            self.wf(),
        ensures
            self.accumulator <= 170000,
    {
    }

    /// Flushes the fold at the end of the input: the committed total plus
    /// any still-staged symbol.
    pub fn total(self) -> (t: u64)
        requires
            self.wf(),
        ensures
            t == self.spec_total(),
    {
        proof {
            self.lemma_accumulator_bounded();
        }
        match self.staged {
            Some(s) => self.accumulator + s.value(),
            None => self.accumulator,
        }
    }
}

/// What the fold makes of the characters `s` started in state `st`: the
/// final state, or the first error found scanning left to right.
pub open spec fn spec_run(s: Seq<char>, st: FoldState) -> Result<FoldState, ParseError>
    decreases s.len(),
{
    if s.len() == 0 {
        Ok(st)
    } else {
        match RomanNumeral::spec_from_char(s[0]) {
            None => Err(ParseError::InvalidSymbol(s[0])),
            Some(current) => match st.spec_step(current) {
                Err(e) => Err(e),
                Ok(st2) => spec_run(s.skip(1), st2),
            },
        }
    }
}

/// What parsing the characters `s` returns: the accumulated total with the
/// staged symbol flushed in, or the first error of the scan.
pub open spec fn spec_parse(s: Seq<char>) -> Result<u64, ParseError> {
    match spec_run(s, FoldState::spec_init()) {
        Ok(st) => Ok(st.spec_total() as u64),
        Err(e) => Err(e),
    }
}

/// Parse a string of roman numerals into a u64.
///
/// Scans strictly left to right, never backtracks, and returns the value
/// of the numeral, or the first grammar violation encountered.
pub fn parse_roman_numerals(value: &str) -> (r: Result<u64, ParseError>)
    ensures
        r == spec_parse(value@),
{
    let n: usize = value.unicode_len();
    let mut st = FoldState::init();
    let mut i: usize = 0;
    proof {
        assert(value@.skip(0) =~= value@);
    }
    while i < n
        invariant
            i <= n,
            n == value@.len(),
            st.wf(),
            spec_run(value@, FoldState::spec_init()) == spec_run(value@.skip(i as int), st),
        decreases n - i,
    {
        let c = value.get_char(i);
        let current = match RomanNumeral::from_char(c) {
            Ok(sym) => sym,
            Err(e) => {
                return Err(e);
            },
        };
        st = match st.step(current) {
            Ok(next) => next,
            Err(e) => {
                return Err(e);
            },
        };
        proof {
            assert(value@.skip(i as int).skip(1) =~= value@.skip(i as int + 1));
        }
        i = i + 1;
    }
    proof {
        assert(value@.skip(n as int) =~= Seq::<char>::empty());
    }
    Ok(st.total())
}

/// Law: a successful transition preserves well-formedness, so every state
/// the fold reaches keeps the run count at most four, keeps the staged
/// symbol's magnitude equal to the run magnitude, and keeps the
/// accumulator bounded.
pub proof fn lemma_step_preserves_wf(st: FoldState, current: RomanNumeral)
    requires
        st.wf(),
        st.spec_step(current) is Ok,
    ensures
        st.spec_step(current).unwrap().wf(),
{
}

/// Law: a fold over any character sequence from a well-formed state ends,
/// when it succeeds, in a well-formed state.
pub proof fn lemma_run_preserves_wf(s: Seq<char>, st: FoldState)
    requires
        st.wf(),
        spec_run(s, st) is Ok,
    ensures
        spec_run(s, st).unwrap().wf(),
    decreases s.len(),
{
    if s.len() > 0 {
        let current = RomanNumeral::spec_from_char(s[0]).unwrap();
        lemma_step_preserves_wf(st, current);
        lemma_run_preserves_wf(s.skip(1), st.spec_step(current).unwrap());
    }
}

/// Law: parsing is deterministic. Any two results of parsing the same
/// character sequence are equal, since each is pinned to the one value of
/// the specification fold.
pub proof fn lemma_parse_deterministic(
    s: Seq<char>,
    r1: Result<u64, ParseError>,
    r2: Result<u64, ParseError>,
)
    requires
        r1 == spec_parse(s),
        r2 == spec_parse(s),
    ensures
        r1 == r2,
{
}

/// Law: the empty input parses to zero.
pub proof fn lemma_empty_input_is_zero(s: Seq<char>)
    requires
        s.len() == 0,
    ensures
        spec_parse(s) == Ok::<u64, ParseError>(0),
{
}

/// Law: a single recognized symbol parses to exactly that symbol's value.
pub proof fn lemma_single_symbol_value(s: Seq<char>, sym: RomanNumeral)
    requires
        s.len() == 1,
        RomanNumeral::spec_from_char(s[0]) == Some(sym),
    ensures
        spec_parse(s) == Ok::<u64, ParseError>(sym.spec_value()),
{
    reveal_with_fuel(spec_run, 2);
    assert(s.skip(1) =~= Seq::<char>::empty());
}

/// Law: a parse can only succeed when every character of the input is one
/// of the seven recognized symbols.
pub proof fn lemma_parse_ok_all_recognized(s: Seq<char>)
    requires
        spec_parse(s) is Ok,
    ensures
        forall|i: int| 0 <= i < s.len() ==> RomanNumeral::spec_from_char(s[i]) is Some,
{
    lemma_run_ok_all_recognized(s, FoldState::spec_init());
}

/// Helper for `lemma_parse_ok_all_recognized`: a successful fold from any
/// state saw only recognized characters.
proof fn lemma_run_ok_all_recognized(s: Seq<char>, st: FoldState)
    requires
        spec_run(s, st) is Ok,
    ensures
        forall|i: int| 0 <= i < s.len() ==> RomanNumeral::spec_from_char(s[i]) is Some,
    decreases s.len(),
{
    if s.len() > 0 {
        let current = RomanNumeral::spec_from_char(s[0]).unwrap();
        let st2 = st.spec_step(current).unwrap();
        lemma_run_ok_all_recognized(s.skip(1), st2);
        assert forall|i: int| 0 <= i < s.len() implies RomanNumeral::spec_from_char(
            s[i],
        ) is Some by {
            if i > 0 {
                assert(s.skip(1)[i - 1] == s[i]);
            }
        }
    }
}

/// Law: an unrecognized character is reported as an invalid-symbol error
/// naming that character, at whatever position it stands, provided the
/// scan reaches it: the characters before it parse without error. An
/// earlier violation wins otherwise, since the scan is fail-fast.
pub proof fn lemma_invalid_symbol_rejected(s: Seq<char>, i: int)
    requires
        0 <= i < s.len(),
        RomanNumeral::spec_from_char(s[i]) is None,
        spec_run(s.take(i), FoldState::spec_init()) is Ok,
    ensures
        spec_parse(s) == Err::<u64, ParseError>(ParseError::InvalidSymbol(s[i])),
{
    lemma_run_first_invalid(s, FoldState::spec_init(), i);
}

/// Helper for `lemma_invalid_symbol_rejected`: from any state, a fold that
/// clears the first `i` characters stops at an unrecognized character `i`.
proof fn lemma_run_first_invalid(s: Seq<char>, st: FoldState, i: int)
    requires
        0 <= i < s.len(),
        RomanNumeral::spec_from_char(s[i]) is None,
        spec_run(s.take(i), st) is Ok,
    ensures
        spec_run(s, st) == Err::<FoldState, ParseError>(ParseError::InvalidSymbol(s[i])),
    decreases i,
{
    if i == 0 {
    } else {
        assert(s.take(i)[0] == s[0]);
        let current = RomanNumeral::spec_from_char(s[0]).unwrap();
        let st2 = st.spec_step(current).unwrap();
        assert(s.take(i).skip(1) =~= s.skip(1).take(i - 1));
        assert(s.skip(1)[i - 1] == s[i]);
        lemma_run_first_invalid(s.skip(1), st2, i - 1);
    }
}

/// The value of the unit symbol at a magnitude: ten to that power for the
/// magnitudes a symbol can have.
pub open spec fn unit_value_at(base: i8) -> int {
    if base == 0 {
        1
    } else if base == 1 {
        10
    } else if base == 2 {
        100
    } else if base == 3 {
        1000
    } else {
        0
    }
}

} // verus!

