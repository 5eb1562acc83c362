//! Reading the battery from the text of the power-supply files: one file
//! holds the charge in percent, another the charging status.

use vstd::prelude::*;
use crate::reading::BatteryReading;
use crate::reading::FULL_LEVEL;
use crate::reading::UNKNOWN_LEVEL;
use crate::text::has_prefix;
use crate::text::same_text;
use crate::text::starts_with;

verus! {

/// White space as `str::trim` knows it: the characters with the Unicode
/// property `White_Space`.
pub open spec fn is_white_space(c: char) -> bool {
    let n = c as u32;
    ||| 0x09 <= n <= 0x0D
    ||| n == 0x20
    ||| n == 0x85
    ||| n == 0xA0
    ||| n == 0x1680
    ||| 0x2000 <= n <= 0x200A
    ||| n == 0x2028
    ||| n == 0x2029
    ||| n == 0x202F
    ||| n == 0x205F
    ||| n == 0x3000
}

/// The text without the white space at its start.
pub open spec fn trimmed_start(text: Seq<char>) -> Seq<char>
    decreases text.len(),
{
    if text.len() > 0 && is_white_space(text.first()) {
        trimmed_start(text.skip(1))
    } else {
        text
    }
}

/// The text without the white space at its end.
pub open spec fn trimmed_end(text: Seq<char>) -> Seq<char>
    decreases text.len(),
{
    if text.len() > 0 && is_white_space(text.last()) {
        trimmed_end(text.drop_last())
    } else {
        text
    }
}

/// The text without the white space at its two ends.
pub open spec fn trimmed(text: Seq<char>) -> Seq<char> {
    trimmed_end(trimmed_start(text))
}

/// One of the ten decimal digits of ASCII.
pub open spec fn is_digit(c: char) -> bool {
    0x30 <= c as u32 <= 0x39
}

/// The number that a run of decimal digits writes.
pub open spec fn digits_value(digits: Seq<char>) -> int
    decreases digits.len(),
{
    if digits.len() == 0 {
        0
    } else {
        10 * digits_value(digits.drop_last()) + (digits.last() as u32 - 0x30)
    }
}

/// Every character of the text is a decimal digit.
pub open spec fn all_digits(text: Seq<char>) -> bool {
    forall|i: int| 0 <= i < text.len() ==> is_digit(#[trigger] text[i])
}

/// The number that a text writes: an optional sign, then one decimal
/// digit or more and nothing else, with a value that an `i32` holds.
/// Any other text writes none.
pub open spec fn parsed_int(text: Seq<char>) -> Option<i32> {
    let signed = text.len() > 0 && (text[0] == '-' || text[0] == '+');
    let digits = if signed {
        text.skip(1)
    } else {
        text
    };
    let value = if signed && text[0] == '-' {
        -digits_value(digits)
    } else {
        digits_value(digits)
    };
    if digits.len() > 0 && all_digits(digits) && i32::MIN <= value <= i32::MAX {
        Some(value as i32)
    } else {
        None
    }
}

/// Calls `str::trim`. Trusted: the result is the text without the white
/// space at its two ends, white space being the characters with the
/// Unicode property `White_Space`.
#[verifier::external_body]
fn trim<'a>(text: &'a str) -> (rest: &'a str)
    ensures
        rest@ == trimmed(text@),
{
    text.trim()
}

/// Calls `str::parse` for an `i32`. Trusted: it succeeds on an optional
/// sign followed by decimal digits alone whose value an `i32` holds, and
/// gives that value; every failure is turned into `None`.
#[verifier::external_body]
fn parse_int(text: &str) -> (number: Option<i32>)
    ensures
        number == parsed_int(text@),
{
    text.parse::<i32>().ok()
}

/// The level for what was read from the capacity file: the number if
/// it is a percentage, from zero to a hundred; the unknown level where
/// there was no number or one that is no percentage.
pub open spec fn level_of(parsed: Option<i32>) -> i32 {
    match parsed {
        Some(n) => if 0 <= n <= FULL_LEVEL {
            n
        } else {
            UNKNOWN_LEVEL
        },
        None => UNKNOWN_LEVEL,
    }
}

/// The level that the text of the capacity file stands for.
pub open spec fn level_in(capacity: Seq<char>) -> i32 {
    level_of(parsed_int(trimmed(capacity)))
}

/// Whether the text of the status file says that the battery charges.
pub open spec fn says_charging(status: Seq<char>) -> bool {
    trimmed(status) == "Charging"@
}

/// The reading that the two texts stand for.
pub open spec fn reading_in(capacity: Seq<char>, status: Seq<char>) -> BatteryReading {
    BatteryReading { level: level_in(capacity), is_charging: says_charging(status) }
}

pub fn level_or_unknown(parsed: Option<i32>) -> (level: i32)
    ensures
        level == level_of(parsed),
        level == UNKNOWN_LEVEL || 0 <= level <= FULL_LEVEL,
{
    match parsed {
        Some(n) => if 0 <= n && n <= FULL_LEVEL {
            n
        } else {
            UNKNOWN_LEVEL
        },
        None => UNKNOWN_LEVEL,
    }
}

/// Reads the level from the text of the capacity file. Text that is not
/// a number from zero to a hundred gives the unknown level.
pub fn level_from_text(capacity: &str) -> (level: i32)
    ensures
        level == level_in(capacity@),
        level == UNKNOWN_LEVEL || 0 <= level <= FULL_LEVEL,
{
    level_or_unknown(parse_int(trim(capacity)))
}

/// Whether the status, already without the white space around it, is
/// the one word that means charging.
pub fn is_charging_word(status: &str) -> (charging: bool)
    ensures
        charging == (status@ == "Charging"@),
{
    same_text(status, "Charging")
}

/// Reads the charging flag from the text of the status file.
pub fn charging_from_text(status: &str) -> (charging: bool)
    ensures
        charging == says_charging(status@),
{
    is_charging_word(trim(status))
}

/// Reads one sample from the text of the two files.
pub fn reading_from_text(capacity: &str, status: &str) -> (reading: BatteryReading)
    ensures
        reading == reading_in(capacity@, status@),
        reading.in_range(),
{
    BatteryReading { level: level_from_text(capacity), is_charging: charging_from_text(status) }
}

/// Whether a power-supply entry of this name is a battery: its name
/// begins with `BAT`.
pub fn is_battery_entry(name: &str) -> (battery: bool)
    ensures
        battery == has_prefix(name@, "BAT"@),
{
    starts_with(name, "BAT")
}

/// Whatever the capacity file holds, the level read from it is the
/// unknown level or a percentage.
pub proof fn level_read_is_in_range(capacity: Seq<char>, status: Seq<char>)
    ensures
        level_in(capacity) == UNKNOWN_LEVEL || 0 <= level_in(capacity) <= FULL_LEVEL,
        reading_in(capacity, status).in_range(),
{
}

} // verus!
