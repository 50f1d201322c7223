//! The brightness-change grammar and the arithmetic that turns a change and a
//! reading `(current, max)` into a new value.
//!
//! A change is an optional sign (`+` raises, `-` lowers, none sets), a decimal
//! number of at most 255 and an optional `%`, which reads the number as a
//! percentage of the display's maximum.
use vstd::prelude::*;

use crate::text::{chars_of, parse_u8_range, trim, trimmed, u8_literal};

verus! {

/// How a change combines with the current value.
#[derive(Clone, Copy, Debug, PartialEq, Eq, Structural)]
pub enum Mode {
    Absolute(u8),
    RelativeIncrease(u8),
    RelativeDecrease(u8),
}

/// Whether the number of a change is a raw value or a percentage of the maximum.
#[derive(Clone, Copy, Debug, PartialEq, Eq, Structural)]
pub enum Unit {
    Raw,
    Percentage,
}

/// A parsed brightness change.
#[derive(Clone, Copy, Debug, PartialEq, Eq, Structural)]
pub struct BrightnessSpec {
    pub mode: Mode,
    pub unit: Unit,
}

/// Why a brightness change was refused.
#[derive(Clone, Copy, Debug, PartialEq, Eq, Structural)]
pub enum ParseError {
    /// Nothing but white space.
    Empty,
    /// A sign with nothing after it.
    MissingValue,
    /// The number is not a decimal integer in `0..=255`.
    InvalidValue,
}

impl Mode {
    pub open spec fn spec_value(self) -> u8 {
        match self {
            Mode::Absolute(v) => v,
            Mode::RelativeIncrease(v) => v,
            Mode::RelativeDecrease(v) => v,
        }
    }

    /// The number the change carries.
    pub fn value(&self) -> (r: u8)
        ensures
            r == self.spec_value(),
    {
        match self {
            Mode::Absolute(v) => *v,
            Mode::RelativeIncrease(v) => *v,
            Mode::RelativeDecrease(v) => *v,
        }
    }
}

/// The change that the (already trimmed) characters `t` denote.
pub open spec fn parse_spec(t: Seq<char>) -> Result<BrightnessSpec, ParseError> {
    if t.len() == 0 {
        Err(ParseError::Empty)
    } else {
        let rest = if t[0] == '+' || t[0] == '-' {
            t.drop_first()
        } else {
            t
        };
        if rest.len() == 0 {
            Err(ParseError::MissingValue)
        } else {
            let percentage = rest.last() == '%';
            let digits = if percentage {
                rest.drop_last()
            } else {
                rest
            };
            match u8_literal(digits) {
                None => Err(ParseError::InvalidValue),
                Some(v) => Ok(
                    BrightnessSpec {
                        mode: if t[0] == '+' {
                            Mode::RelativeIncrease(v)
                        } else if t[0] == '-' {
                            Mode::RelativeDecrease(v)
                        } else {
                            Mode::Absolute(v)
                        },
                        unit: if percentage {
                            Unit::Percentage
                        } else {
                            Unit::Raw
                        },
                    },
                ),
            }
        }
    }
}

/// The raw amount a change stands for on a display whose maximum is `max`:
/// a percentage is taken of `max` and rounded down.
pub open spec fn magnitude(spec: BrightnessSpec, max: u8) -> int {
    match spec.unit {
        Unit::Raw => spec.mode.spec_value() as int,
        Unit::Percentage => spec.mode.spec_value() * max / 100,
    }
}

/// The new value of a display that reads `(current, max)`: set, raised or
/// lowered by the magnitude, then held within `0..=max`.
pub open spec fn apply_spec(spec: BrightnessSpec, current: u8, max: u8) -> u8 {
    let m = magnitude(spec, max);
    let raw: int = match spec.mode {
        Mode::Absolute(_) => m,
        Mode::RelativeIncrease(_) => current + m,
        Mode::RelativeDecrease(_) => current - m,
    };
    if raw < 0 {
        0
    } else if raw > max {
        max
    } else {
        raw as u8
    }
}

/// The new value for a reading `current` and a change written `s`, or why
/// `s` is refused.
pub open spec fn new_brightness_spec(current: (u8, u8), s: Seq<char>) -> Result<u8, ParseError> {
    match parse_spec(trimmed(s)) {
        Ok(spec) => Ok(apply_spec(spec, current.0, current.1)),
        Err(e) => Err(e),
    }
}

impl BrightnessSpec {
    /// Parses a change after removing the white space around it.
    pub fn parse(s: &str) -> (r: Result<BrightnessSpec, ParseError>)
        ensures
            r == parse_spec(trimmed(s@)),
            s@.len() == 0 ==> r == Err::<BrightnessSpec, ParseError>(ParseError::Empty),
    {
        let t = trim(s);
        BrightnessSpec::parse_trimmed(t)
    }

    /// Parses a change that has no white space around it.
    pub fn parse_trimmed(t: &str) -> (r: Result<BrightnessSpec, ParseError>)
        ensures
            r == parse_spec(t@),
    {
        let v = chars_of(t);
        let n = v.len();
        if n == 0 {
            return Err(ParseError::Empty);
        }
        let first = v[0];
        let start: usize = if first == '+' || first == '-' {
            1
        } else {
            0
        };
        let ghost rest = v@.subrange(start as int, n as int);
        assert(start == 1 ==> rest =~= t@.drop_first());
        assert(start == 0 ==> rest =~= t@);
        if start == n {
            return Err(ParseError::MissingValue);
        }
        let percentage = v[n - 1] == '%';
        let end: usize = if percentage {
            n - 1
        } else {
            n
        };
        assert(rest.last() == v@[n - 1]);
        assert(percentage ==> v@.subrange(start as int, end as int) =~= rest.drop_last());
        assert(!percentage ==> v@.subrange(start as int, end as int) =~= rest);
        let value = match parse_u8_range(&v, start, end) {
            Some(value) => value,
            None => {
                return Err(ParseError::InvalidValue);
            },
        };
        let mode = if first == '+' {
            Mode::RelativeIncrease(value)
        } else if first == '-' {
            Mode::RelativeDecrease(value)
        } else {
            Mode::Absolute(value)
        };
        let unit = if percentage {
            Unit::Percentage
        } else {
            Unit::Raw
        };
        Ok(BrightnessSpec { mode, unit })
    }

    /// The raw amount this change stands for on a display whose maximum is `max`.
    pub fn magnitude(&self, max: u8) -> (r: u32)
        ensures
            r == magnitude(*self, max),
            r <= 650,
    {
        let v = self.mode.value() as u32;
        match self.unit {
            Unit::Raw => v,
            Unit::Percentage => {
                assert(v * (max as u32) <= 255 * 255) by (nonlinear_arith)
                    requires
                        v <= 255,
                        max <= 255,
                ;
                v * (max as u32) / 100
            },
        }
    }

    /// The new value of a display that reads `(current, max)`.
    pub fn apply(&self, current: u8, max: u8) -> (r: u8)
        ensures
            r == apply_spec(*self, current, max),
            r <= max,
    {
        let m = self.magnitude(max);
        let raw: u32 = match self.mode {
            Mode::Absolute(_) => m,
            Mode::RelativeIncrease(_) => current as u32 + m,
            Mode::RelativeDecrease(_) => if m >= current as u32 {
                0
            } else {
                current as u32 - m
            },
        };
        if raw > max as u32 {
            max
        } else {
            raw as u8
        }
    }
}

/// The sentence that describes a refusal.
pub open spec fn parse_error_text(e: ParseError) -> Seq<char> {
    match e {
        ParseError::Empty => "brightness cannot be empty"@,
        ParseError::MissingValue => "invalid brightness value"@,
        ParseError::InvalidValue => "invalid brightness value"@,
    }
}

impl ParseError {
    /// A sentence that describes the refusal.
    pub fn message(&self) -> (r: String)
        ensures
            r@ == parse_error_text(*self),
    {
        match self {
            ParseError::Empty => String::from_str("brightness cannot be empty"),
            ParseError::MissingValue => String::from_str("invalid brightness value"),
            ParseError::InvalidValue => String::from_str("invalid brightness value"),
        }
    }
}

/// The new value for a display that reads `current = (value, max)` after the
/// change written `new_brightness`.
pub fn calculate_new_brightness(current: (u8, u8), new_brightness: &str) -> (r: Result<
    u8,
    ParseError,
>)
    ensures
        r == new_brightness_spec(current, new_brightness@),
        r is Ok ==> r->Ok_0 <= current.1,
{
    let (br, max_br) = current;
    match BrightnessSpec::parse(new_brightness) {
        Ok(spec) => Ok(spec.apply(br, max_br)),
        Err(e) => Err(e),
    }
}

/// Setting an absolute value does not depend on the current value, so doing
/// it a second time, on what the first time left, gives the same value.
pub proof fn lemma_absolute_is_idempotent(spec: BrightnessSpec, current: u8, max: u8)
    requires
        spec.mode is Absolute,
    ensures
        apply_spec(spec, apply_spec(spec, current, max), max) == apply_spec(spec, current, max),
{
}

} // verus!
