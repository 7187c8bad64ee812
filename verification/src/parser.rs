//! The duration parser: a string of the form `<digits><unit>` with
//! `unit` one of `s`, `m`, `h` becomes a whole number of seconds.

use vstd::prelude::*;
use crate::digits::{
    spec_is_digit, spec_digit_val, spec_all_digits, spec_digits_val, lemma_digits_val_prefix_le,
    lemma_dec_digits, lemma_dec_val, spec_dec,
};

verus! {

/// Why a duration string was rejected.
#[derive(Clone, Copy, Debug, PartialEq, Eq, Structural)]
pub enum ParseError {
    /// The input had zero length.
    EmptyInput,
    /// The final character was not `s`, `m` or `h`.
    UnknownUnit,
    /// The numeric prefix was empty, non-numeric, or out of range
    /// (including overflow while scaling to seconds).
    InvalidMagnitude,
}

impl ParseError {
    /// The one-line diagnostic the program prints for this error.
    pub fn message(&self) -> (r: &'static str)
        ensures
            r@ == match *self {
                ParseError::EmptyInput => "empty input"@,
                ParseError::UnknownUnit => "unknown unit"@,
                ParseError::InvalidMagnitude => "no duration"@,
            },
    {
        match *self {
            ParseError::EmptyInput => "empty input",
            ParseError::UnknownUnit => "unknown unit",
            ParseError::InvalidMagnitude => "no duration",
        }
    }
}

/// The unit a duration was given in.
#[derive(Clone, Copy, Debug, PartialEq, Eq, Structural)]
pub enum DurationUnit {
    Seconds,
    Minutes,
    Hours,
}

/// A parsed duration: a magnitude and its unit.
#[derive(Clone, Copy, Debug, PartialEq, Eq, Structural)]
pub struct DurationInput {
    pub unit: DurationUnit,
    pub duration: u64,
}

/// Seconds per unit.
pub open spec fn spec_scale(u: DurationUnit) -> int {
    match u {
        DurationUnit::Seconds => 1,
        DurationUnit::Minutes => 60,
        DurationUnit::Hours => 3600,
    }
}

/// The character that names a unit.
pub open spec fn spec_unit_char(u: DurationUnit) -> char {
    match u {
        DurationUnit::Seconds => 's',
        DurationUnit::Minutes => 'm',
        DurationUnit::Hours => 'h',
    }
}

/// The unit named by a character, if any.
pub open spec fn spec_unit_of(c: char) -> Option<DurationUnit> {
    if c == 's' {
        Some(DurationUnit::Seconds)
    } else if c == 'm' {
        Some(DurationUnit::Minutes)
    } else if c == 'h' {
        Some(DurationUnit::Hours)
    } else {
        None
    }
}

/// What parsing a duration string yields: the seconds on success, and
/// the exact error otherwise. The final character names the unit; the
/// rest is the magnitude, which must be a non-empty digit string whose
/// value, scaled to seconds, fits in a `u64`.
pub open spec fn spec_parse(s: Seq<char>) -> Result<u64, ParseError> {
    if s.len() == 0 {
        Err(ParseError::EmptyInput)
    } else {
        match spec_unit_of(s.last()) {
            None => Err(ParseError::UnknownUnit),
            Some(u) => {
                let mag = s.drop_last();
                if mag.len() == 0 || !spec_all_digits(mag) {
                    Err(ParseError::InvalidMagnitude)
                } else if spec_digits_val(mag) * spec_scale(u) > u64::MAX {
                    Err(ParseError::InvalidMagnitude)
                } else {
                    Ok((spec_digits_val(mag) * spec_scale(u)) as u64)
                }
            },
        }
    }
}

impl DurationInput {
    /// The magnitude scaled to seconds fits in a `u64`. Holds of every
    /// value that `parse` returns.
    pub open spec fn wf(self) -> bool {
        self.duration * spec_scale(self.unit) <= u64::MAX
    }

    /// The duration in seconds, as a mathematical integer.
    pub open spec fn spec_total(self) -> int {
        self.duration * spec_scale(self.unit)
    }

    /// The duration in whole seconds.
    pub fn get_duration(self) -> (r: u64)
        requires
            self.wf(),
        ensures
            r == self.spec_total(),
    {
        match self.unit {
            DurationUnit::Seconds => self.duration,
            DurationUnit::Minutes => 60 * self.duration,
            DurationUnit::Hours => {
                proof {
                    assert(60 * 60 * self.duration == self.duration * 3600) by (nonlinear_arith);
                }
                60 * 60 * self.duration
            },
        }
    }

    /// Parse a duration string into its magnitude and unit, rejecting
    /// anything whose value in seconds would not fit in a `u64`.
    pub fn parse(input: &str) -> (r: Result<DurationInput, ParseError>)
        ensures
            match r {
                Ok(d) => {
                    &&& d.wf()
                    &&& spec_parse(input@) == Ok::<u64, ParseError>(d.spec_total() as u64)
                    &&& input@.len() > 0
                    &&& spec_unit_of(input@.last()) == Some(d.unit)
                    &&& d.duration == spec_digits_val(input@.drop_last())
                },
                Err(e) => spec_parse(input@) == Err::<u64, ParseError>(e),
            },
    {
        let ghost s: Seq<char> = input@;
        let ghost mag: Seq<char> = s.drop_last();
        let n: usize = input.unicode_len();
        if n == 0 {
            return Err(ParseError::EmptyInput);
        }
        let last_c: char = input.get_char(n - 1);
        proof {
            assert(last_c == s.last());
        }
        let unit: DurationUnit = if last_c == 's' {
            DurationUnit::Seconds
        } else if last_c == 'm' {
            DurationUnit::Minutes
        } else if last_c == 'h' {
            DurationUnit::Hours
        } else {
            return Err(ParseError::UnknownUnit);
        };
        if n == 1 {
            return Err(ParseError::InvalidMagnitude);
        }
        let mut acc: u64 = 0;
        let mut i: usize = 0;
        while i < n - 1
            invariant
                2 <= n,
                n as nat == s.len(),
                s == input@,
                mag == s.drop_last(),
                spec_unit_of(s.last()) == Some(unit),
                0 <= i <= n - 1,
                forall|j: int| 0 <= j < i ==> spec_is_digit(#[trigger] mag[j]),
                acc == spec_digits_val(mag.take(i as int)),
            decreases n - 1 - i,
        {
            let c: char = input.get_char(i);
            proof {
                assert(c == mag[i as int]);
            }
            let v: u32 = c as u32;
            if v < 48 || v > 57 {
                proof {
                    assert(!spec_is_digit(mag[i as int]));
                    assert(!spec_all_digits(mag));
                }
                return Err(ParseError::InvalidMagnitude);
            }
            let d: u64 = (v - 48) as u64;
            proof {
                assert(d == spec_digit_val(mag[i as int]));
                let t = mag.take(i + 1);
                assert(t.drop_last() =~= mag.take(i as int));
                assert(t.last() == mag[i as int]);
                assert(spec_digits_val(t) == acc * 10 + d);
            }
            let next: Option<u64> = match acc.checked_mul(10) {
                Some(t) => t.checked_add(d),
                None => None,
            };
            match next {
                Some(w) => {
                    acc = w;
                },
                None => {
                    proof {
                        if spec_all_digits(mag) {
                            lemma_digits_val_prefix_le(mag, i + 1);
                            assert(spec_digits_val(mag) > u64::MAX);
                            assert(spec_digits_val(mag) * spec_scale(unit) > u64::MAX) by (nonlinear_arith)
                                requires
                                    spec_digits_val(mag) > u64::MAX,
                                    spec_scale(unit) >= 1,
                            ;
                        }
                    }
                    return Err(ParseError::InvalidMagnitude);
                },
            }
            i = i + 1;
        }
        proof {
            assert(mag.take(i as int) =~= mag);
            assert(spec_all_digits(mag));
        }
        let scale: u64 = match unit {
            DurationUnit::Seconds => 1,
            DurationUnit::Minutes => 60,
            DurationUnit::Hours => 3600,
        };
        match acc.checked_mul(scale) {
            Some(_) => Ok(DurationInput { unit, duration: acc }),
            None => Err(ParseError::InvalidMagnitude),
        }
    }
}

/// Parse a duration string into whole seconds, exactly as
/// `spec_parse` describes.
pub fn parse(input: &str) -> (r: Result<u64, ParseError>)
    ensures
        r == spec_parse(input@),
{
    match DurationInput::parse(input) {
        Ok(d) => Ok(d.get_duration()),
        Err(e) => Err(e),
    }
}

/// Every well-formed input is accepted, at its scaled value: a
/// non-empty digit string followed by a unit character parses to
/// the digits' value times the unit's scale.
pub proof fn lemma_parse_valid(mag: Seq<char>, u: DurationUnit)
    requires
        mag.len() > 0,
        spec_all_digits(mag),
        spec_digits_val(mag) * spec_scale(u) <= u64::MAX,
    ensures
        spec_parse(mag.push(spec_unit_char(u))) == Ok::<u64, ParseError>(
            (spec_digits_val(mag) * spec_scale(u)) as u64,
        ),
{
    let s = mag.push(spec_unit_char(u));
    assert(s.last() == spec_unit_char(u));
    assert(spec_unit_of(spec_unit_char(u)) == Some(u));
    assert(s.drop_last() =~= mag);
}

/// Round trip: rebuilding `"{digits}{unit}"` from a parsed magnitude
/// and unit, with the digits rendered canonically, parses back to the
/// same number of seconds.
pub proof fn lemma_round_trip(d: DurationInput)
    requires
        d.wf(),
    ensures
        spec_parse(spec_dec(d.duration as nat).push(spec_unit_char(d.unit))) == Ok::<
            u64,
            ParseError,
        >(d.spec_total() as u64),
{
    lemma_dec_digits(d.duration as nat);
    lemma_dec_val(d.duration as nat);
    lemma_parse_valid(spec_dec(d.duration as nat), d.unit);
}

} // verus!
