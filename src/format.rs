//! How the client writes readings and failures.
use vstd::prelude::*;

use crate::ipc::{DisplayBrightness, IpcError};
use crate::text::{decimal_digits, decimal_string};

verus! {

/// `100 * brightness / max_brightness` rounded to the nearest integer, a
/// half to the even neighbour.
pub open spec fn rounded_percent(brightness: u8, max_brightness: u8) -> nat
    recommends
        max_brightness > 0,
{
    let q = (100 * brightness) / (max_brightness as int);
    let r = (100 * brightness) % (max_brightness as int);
    if 2 * r > max_brightness || (2 * r == max_brightness && q % 2 == 1) {
        (q + 1) as nat
    } else {
        q as nat
    }
}

/// The text of a reading: `value/max`, or the value as a rounded percentage
/// of the maximum. A maximum of 0 gives no percentage: `NaN%` for a value of
/// 0, `inf%` otherwise.
pub open spec fn brightness_text(brightness: u8, max_brightness: u8, percentage: bool) -> Seq<char> {
    if percentage {
        if max_brightness == 0 {
            if brightness == 0 {
                "NaN%"@
            } else {
                "inf%"@
            }
        } else {
            decimal_digits(rounded_percent(brightness, max_brightness)) + "%"@
        }
    } else {
        decimal_digits(brightness as nat) + "/"@ + decimal_digits(max_brightness as nat)
    }
}

/// Writes a reading as `value/max`, or as a rounded percentage.
pub fn format_brightness(brightness: u8, max_brightness: u8, percentage: bool) -> (r: String)
    ensures
        r@ == brightness_text(brightness, max_brightness, percentage),
{
    if percentage {
        if max_brightness == 0 {
            if brightness == 0 {
                String::from_str("NaN%")
            } else {
                String::from_str("inf%")
            }
        } else {
            let num: u32 = 100 * (brightness as u32);
            let max = max_brightness as u32;
            let q = num / max;
            let rem = num % max;
            let p: u32 = if 2 * rem > max || (2 * rem == max && q % 2 == 1) {
                q + 1
            } else {
                q
            };
            decimal_string(p).concat("%")
        }
    } else {
        decimal_string(brightness as u32).concat("/").concat(
            decimal_string(max_brightness as u32).as_str(),
        )
    }
}

/// The lines that answer a read: the reading alone for one display, else one
/// `name: reading` line per display.
pub fn reply_lines(displays: &Vec<DisplayBrightness>, percentage: bool) -> (r: Vec<String>)
    ensures
        r@.len() == displays@.len(),
        displays@.len() == 1 ==> r@[0]@ == brightness_text(
            displays@[0].brightness,
            displays@[0].max_brightness,
            percentage,
        ),
        displays@.len() != 1 ==> forall|k: int|
            0 <= k < r@.len() ==> (#[trigger] r@[k])@ == displays@[k].name@ + ": "@
                + brightness_text(displays@[k].brightness, displays@[k].max_brightness, percentage),
{
    let mut lines: Vec<String> = Vec::new();
    if displays.len() == 1 {
        let d = &displays[0];
        lines.push(format_brightness(d.brightness, d.max_brightness, percentage));
        return lines;
    }
    let mut k: usize = 0;
    while k < displays.len()
        invariant
            displays@.len() != 1,
            k <= displays@.len(),
            lines@.len() == k,
            forall|j: int|
                0 <= j < k ==> (#[trigger] lines@[j])@ == displays@[j].name@ + ": "@ + brightness_text(
                    displays@[j].brightness,
                    displays@[j].max_brightness,
                    percentage,
                ),
        decreases displays@.len() - k,
    {
        let d = &displays[k];
        let text = format_brightness(d.brightness, d.max_brightness, percentage);
        let line = d.name.clone().concat(": ").concat(text.as_str());
        lines.push(line);
        k = k + 1;
    }
    lines
}

/// The sentence the client prints for a failed request.
pub open spec fn error_text(e: IpcError) -> Seq<char> {
    match e {
        IpcError::DisplayNotFound { display } => "Display "@ + display@ + " not found"@,
        IpcError::GetBrightnessError { error } => "Error getting brightness: "@ + error@,
        IpcError::SetBrightnessError { error } => "Error setting brightness: "@ + error@,
    }
}

/// Writes the sentence the client prints for a failed request.
pub fn describe_error(e: &IpcError) -> (r: String)
    ensures
        r@ == error_text(*e),
{
    match e {
        IpcError::DisplayNotFound { display } => String::from_str("Display ").concat(
            display.as_str(),
        ).concat(" not found"),
        IpcError::GetBrightnessError { error } => String::from_str(
            "Error getting brightness: ",
        ).concat(error.as_str()),
        IpcError::SetBrightnessError { error } => String::from_str(
            "Error setting brightness: ",
        ).concat(error.as_str()),
    }
}

} // verus!
