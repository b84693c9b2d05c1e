//! Local wall-clock date-times, as the meeting notes and session folders are
//! named after them, rendered by chrono.
use vstd::prelude::*;

use crate::text::padded;

verus! {

/// The least year chrono's `NaiveDate` accepts.
pub const MIN_YEAR: i32 = -262143;

/// The greatest year chrono's `NaiveDate` accepts.
pub const MAX_YEAR: i32 = 262142;

/// Whether `year` is a leap year of the proleptic Gregorian calendar.
pub open spec fn is_leap_year(year: int) -> bool {
    (year % 4 == 0 && year % 100 != 0) || year % 400 == 0
}

/// The number of days of a month (1 to 12) of a year.
pub open spec fn days_in_month(year: int, month: int) -> int {
    if month == 2 {
        if is_leap_year(year) {
            29
        } else {
            28
        }
    } else if month == 4 || month == 6 || month == 9 || month == 11 {
        30
    } else {
        31
    }
}

/// Whether the fields name an existing date and time (seconds 0 to 59) that
/// chrono can hold.
pub open spec fn valid_stamp(s: (int, int, int, int, int, int)) -> bool {
    &&& MIN_YEAR <= s.0 <= MAX_YEAR
    &&& 1 <= s.1 <= 12
    &&& 1 <= s.2 <= days_in_month(s.0, s.1)
    &&& 0 <= s.3 < 24
    &&& 0 <= s.4 < 60
    &&& 0 <= s.5 < 60
}

/// A local date and time to the second.
pub struct Stamp {
    year: i32,
    month: u32,
    day: u32,
    hour: u32,
    minute: u32,
    second: u32,
}

impl View for Stamp {
    type V = (int, int, int, int, int, int);

    closed spec fn view(&self) -> (int, int, int, int, int, int) {
        (
            self.year as int,
            self.month as int,
            self.day as int,
            self.hour as int,
            self.minute as int,
            self.second as int,
        )
    }
}

impl Stamp {
    #[verifier::type_invariant]
    spec fn is_valid(self) -> bool {
        valid_stamp(self@)
    }

    /// The stamp for the given fields, or `None` when they name no date and
    /// time chrono can hold.
    pub fn new(year: i32, month: u32, day: u32, hour: u32, minute: u32, second: u32) -> (r: Option<
        Stamp,
    >)
        ensures
            r is Some <==> valid_stamp(
                (year as int, month as int, day as int, hour as int, minute as int, second as int),
            ),
            r matches Some(s) ==> s@ == (
                year as int,
                month as int,
                day as int,
                hour as int,
                minute as int,
                second as int,
            ),
    {
        if year < MIN_YEAR || year > MAX_YEAR || month < 1 || month > 12 || day < 1 || hour >= 24
            || minute >= 60 || second >= 60 {
            return None;
        }
        let leap = (year % 4 == 0 && year % 100 != 0) || year % 400 == 0;
        let days: u32 = if month == 2 {
            if leap {
                29
            } else {
                28
            }
        } else if month == 4 || month == 6 || month == 9 || month == 11 {
            30
        } else {
            31
        };
        if day > days {
            return None;
        }
        Some(Stamp { year, month, day, hour, minute, second })
    }

    /// The fields: year, month, day, hour, minute, second. They always name a
    /// valid date and time.
    pub fn fields(&self) -> (r: (i32, u32, u32, u32, u32, u32))
        ensures
            self@ == (r.0 as int, r.1 as int, r.2 as int, r.3 as int, r.4 as int, r.5 as int),
            valid_stamp(self@),
    {
        proof {
            use_type_invariant(self);
        }
        (self.year, self.month, self.day, self.hour, self.minute, self.second)
    }
}

/// The year as chrono's `%Y` renders it: four digits, zero-padded, for years
/// 0 to 9999; otherwise with a sign before at least four digits.
pub open spec fn year_text(year: int) -> Seq<char> {
    if 0 <= year <= 9999 {
        padded(year as nat, 4)
    } else if year < 0 {
        seq!['-'] + padded((-year) as nat, 4)
    } else {
        seq!['+'] + padded(year as nat, 4)
    }
}

/// Two digits, zero-padded.
pub open spec fn two(n: int) -> Seq<char> {
    padded(n as nat, 2)
}

/// `%Y-%m-%d-%H%M`, as in a meeting note's file name.
pub open spec fn file_stamp(s: (int, int, int, int, int, int)) -> Seq<char> {
    year_text(s.0) + seq!['-'] + two(s.1) + seq!['-'] + two(s.2) + seq!['-'] + two(s.3) + two(s.4)
}

/// `%Y-%m-%dT%H:%M`, as in a meeting note's front matter.
pub open spec fn iso_minute(s: (int, int, int, int, int, int)) -> Seq<char> {
    year_text(s.0) + seq!['-'] + two(s.1) + seq!['-'] + two(s.2) + seq!['T'] + two(s.3) + seq![':']
        + two(s.4)
}

/// `%Y-%m-%d-%H%M%S`, as in a capture session's folder name.
pub open spec fn session_stamp(s: (int, int, int, int, int, int)) -> Seq<char> {
    file_stamp(s) + two(s.5)
}

/// The patterns the library renders stamps with.
pub open spec fn known_pattern(p: Seq<char>) -> bool {
    p == "%Y-%m-%d-%H%M"@ || p == "%Y-%m-%dT%H:%M"@ || p == "%Y-%m-%d-%H%M%S"@
}

/// What chrono renders for a known pattern.
pub open spec fn rendered(s: (int, int, int, int, int, int), p: Seq<char>) -> Seq<char> {
    if p == "%Y-%m-%d-%H%M"@ {
        file_stamp(s)
    } else if p == "%Y-%m-%dT%H:%M"@ {
        iso_minute(s)
    } else {
        session_stamp(s)
    }
}

/// Calls chrono's `NaiveDate::from_ymd_opt`, `NaiveDate::and_hms_opt` and
/// `NaiveDateTime::format(pattern).to_string()`. Claimed: the date-time exists
/// exactly for valid fields (as chrono's documentation and source say), and
/// each specifier renders as chrono documents it: `%Y` per [`year_text`],
/// `%m %d %H %M %S` as two zero-padded digits, other characters as
/// themselves. Only the three patterns the library uses are admitted; an
/// unknown specifier would make `to_string` panic.
#[verifier::external_body]
fn chrono_format(fields: (i32, u32, u32, u32, u32, u32), pattern: &str) -> (r: Option<String>)
    requires
        known_pattern(pattern@),
    ensures
        r is Some <==> valid_stamp(
            (
                fields.0 as int,
                fields.1 as int,
                fields.2 as int,
                fields.3 as int,
                fields.4 as int,
                fields.5 as int,
            ),
        ),
        r matches Some(t) ==> t@ == rendered(
            (
                fields.0 as int,
                fields.1 as int,
                fields.2 as int,
                fields.3 as int,
                fields.4 as int,
                fields.5 as int,
            ),
            pattern@,
        ),
{
    let date = chrono::NaiveDate::from_ymd_opt(fields.0, fields.1, fields.2)?;
    let at = date.and_hms_opt(fields.3, fields.4, fields.5)?;
    Some(at.format(pattern).to_string())
}

/// `stamp` rendered by chrono with one of the library's patterns.
pub fn format_stamp(stamp: &Stamp, pattern: &str) -> (r: String)
    requires
        known_pattern(pattern@),
    ensures
        r@ == rendered(stamp@, pattern@),
{
    let f = stamp.fields();
    chrono_format(f, pattern).unwrap()
}

} // verus!
