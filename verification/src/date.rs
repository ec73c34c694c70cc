use crate::text::{char_is_digit, digit_to_val, digit_val, is_digit};
use vstd::prelude::*;
use vstd::string::StrSliceExecFns;

verus! {

/// A calendar date, year-month-day.
#[derive(Clone, Copy, PartialEq, Eq, Structural, Debug)]
pub struct ObsDate {
    pub year: u32,
    pub month: u32,
    pub day: u32,
}

/// Gregorian leap year rule.
pub open spec fn leap_year(y: int) -> bool {
    (y % 4 == 0 && y % 100 != 0) || y % 400 == 0
}

pub open spec fn days_in_month(y: int, m: int) -> int {
    if m == 2 {
        if leap_year(y) {
            29
        } else {
            28
        }
    } else if m == 4 || m == 6 || m == 9 || m == 11 {
        30
    } else {
        31
    }
}

/// A date that exists in the calendar, with a four-digit year.
pub open spec fn date_wf(d: ObsDate) -> bool {
    d.year <= 9999 && 1 <= d.month <= 12 && 1 <= d.day <= days_in_month(
        d.year as int,
        d.month as int,
    )
}

/// `a` falls on or before `b`.
pub open spec fn date_le(a: ObsDate, b: ObsDate) -> bool {
    a.year < b.year || (a.year == b.year && (a.month < b.month || (a.month == b.month && a.day
        <= b.day)))
}

/// Year encoded by a well-formed date text.
pub open spec fn year_of(s: Seq<char>) -> int {
    digit_val(s[0]) * 1000 + digit_val(s[1]) * 100 + digit_val(s[2]) * 10 + digit_val(s[3])
}

/// Month encoded by a well-formed date text.
pub open spec fn month_of(s: Seq<char>) -> int {
    digit_val(s[5]) * 10 + digit_val(s[6])
}

/// Day encoded by a well-formed date text.
pub open spec fn day_of(s: Seq<char>) -> int {
    digit_val(s[8]) * 10 + digit_val(s[9])
}

/// Date text: four digit year, two digit month, two digit day,
/// dash-separated, naming a date that exists in the calendar.
pub open spec fn date_text_wf(s: Seq<char>) -> bool {
    s.len() == 10 && s[4] == '-' && s[7] == '-' && is_digit(s[0]) && is_digit(s[1]) && is_digit(
        s[2],
    ) && is_digit(s[3]) && is_digit(s[5]) && is_digit(s[6]) && is_digit(s[8]) && is_digit(s[9])
        && 1 <= month_of(s) <= 12 && 1 <= day_of(s) <= days_in_month(year_of(s), month_of(s))
}

/// What parsing a date text yields.
pub open spec fn parse_date_spec(s: Seq<char>) -> Option<ObsDate> {
    if date_text_wf(s) {
        Some(
            ObsDate {
                year: year_of(s) as u32,
                month: month_of(s) as u32,
                day: day_of(s) as u32,
            },
        )
    } else {
        None
    }
}

fn days_in_month_x(y: u32, m: u32) -> (r: u32)
    requires
        1 <= m <= 12,
    ensures
        r == days_in_month(y as int, m as int),
{
    if m == 2 {
        if (y % 4 == 0 && y % 100 != 0) || y % 400 == 0 {
            29
        } else {
            28
        }
    } else if m == 4 || m == 6 || m == 9 || m == 11 {
        30
    } else {
        31
    }
}

/// Parse a dash-separated date text, rejecting anything that is not a
/// calendar date written as four-digit year, two-digit month, two-digit day.
pub fn parse_date(s: &str) -> (r: Option<ObsDate>)
    ensures
        r == parse_date_spec(s@),
        r is Some ==> date_wf(r->0),
{
    if s.unicode_len() != 10 {
        return None;
    }
    if s.get_char(4) != '-' || s.get_char(7) != '-' {
        return None;
    }
    let c0 = s.get_char(0);
    let c1 = s.get_char(1);
    let c2 = s.get_char(2);
    let c3 = s.get_char(3);
    let c5 = s.get_char(5);
    let c6 = s.get_char(6);
    let c8 = s.get_char(8);
    let c9 = s.get_char(9);
    if !(char_is_digit(c0) && char_is_digit(c1) && char_is_digit(c2) && char_is_digit(c3)
        && char_is_digit(c5) && char_is_digit(c6) && char_is_digit(c8) && char_is_digit(c9)) {
        return None;
    }
    let year = digit_to_val(c0) * 1000 + digit_to_val(c1) * 100 + digit_to_val(c2) * 10
        + digit_to_val(c3);
    let month = digit_to_val(c5) * 10 + digit_to_val(c6);
    let day = digit_to_val(c8) * 10 + digit_to_val(c9);
    if month < 1 || month > 12 {
        return None;
    }
    if day < 1 || day > days_in_month_x(year, month) {
        return None;
    }
    Some(ObsDate { year, month, day })
}

/// Whether `a` falls on or before `b`.
pub fn date_le_x(a: &ObsDate, b: &ObsDate) -> (r: bool)
    ensures
        r == date_le(*a, *b),
{
    a.year < b.year || (a.year == b.year && (a.month < b.month || (a.month == b.month && a.day
        <= b.day)))
}

} // verus!
