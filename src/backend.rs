//! The values that the two hardware backends report, turned into readings.
//!
//! A backlight device exposes its current and maximum value as two small
//! decimal text files; a DDC/CI monitor answers a query of the brightness
//! feature with two 16-bit numbers.
use vstd::prelude::*;

use crate::text::{chars_of, parse_u8_range, trim, trimmed, u8_literal};

verus! {

/// The feature code of brightness in DDC/CI.
pub const BRIGHTNESS_FEATURE: u8 = 0x10;

/// Why the two backlight files do not make a reading.
#[derive(Clone, Copy, Debug, PartialEq, Eq, Structural)]
pub enum BacklightError {
    /// `brightness` does not hold a value.
    Brightness,
    /// `max_brightness` does not hold a value.
    MaxBrightness,
    /// The value is above the maximum.
    AboveMaximum,
}

/// The value that the content of a backlight file holds: a decimal number of
/// at most 255, with white space around it.
pub open spec fn file_value(content: Seq<char>) -> Option<u8> {
    u8_literal(trimmed(content))
}

/// Reads the value that the content of a backlight file holds.
pub fn parse_value(content: &str) -> (r: Option<u8>)
    ensures
        r == file_value(content@),
{
    let t = chars_of(trim(content));
    assert(t@.subrange(0, t@.len() as int) =~= t@);
    parse_u8_range(&t, 0, t.len())
}

/// The reading `(value, max)` of a backlight device from the contents of its
/// `brightness` and `max_brightness` files; a value above the maximum is no
/// reading.
pub fn backlight_brightness(brightness: &str, max_brightness: &str) -> (r: Result<
    (u8, u8),
    BacklightError,
>)
    ensures
        match (file_value(brightness@), file_value(max_brightness@)) {
            (Some(b), Some(m)) => if b <= m {
                r == Ok::<(u8, u8), BacklightError>((b, m))
            } else {
                r == Err::<(u8, u8), BacklightError>(BacklightError::AboveMaximum)
            },
            (None, _) => r == Err::<(u8, u8), BacklightError>(BacklightError::Brightness),
            (Some(_), None) => r == Err::<(u8, u8), BacklightError>(BacklightError::MaxBrightness),
        },
{
    let br = match parse_value(brightness) {
        Some(v) => v,
        None => {
            return Err(BacklightError::Brightness);
        },
    };
    let max_br = match parse_value(max_brightness) {
        Some(v) => v,
        None => {
            return Err(BacklightError::MaxBrightness);
        },
    };
    if br > max_br {
        return Err(BacklightError::AboveMaximum);
    }
    Ok((br, max_br))
}

/// The reading `(value, max)` of a monitor from the current and maximum
/// value of its brightness feature: `None` for a malformed reply, one whose
/// maximum does not fit in a byte or whose value is above the maximum.
pub fn ddc_brightness(value: u16, maximum: u16) -> (r: Option<(u8, u8)>)
    ensures
        r == (if maximum <= 255 && value <= maximum {
            Some((value as u8, maximum as u8))
        } else {
            None::<(u8, u8)>
        }),
{
    if maximum > 255 || value > maximum {
        None
    } else {
        Some((value as u8, maximum as u8))
    }
}

} // verus!
