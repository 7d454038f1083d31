//! Calendar dates, and the date that a table header names.

use vstd::prelude::*;
use crate::field::{digit_of, digit_value, is_digit};
use crate::text::chars_of;

verus! {

/// The first year that a date can lie in.
pub const MIN_YEAR: i32 = -262143;

/// The last year that a date can lie in.
pub const MAX_YEAR: i32 = 262142;

/// The sign that follows the month in a header.
pub const MONTH_SIGN: char = '月';

/// The sign that follows the day in a header.
pub const DAY_SIGN: char = '日';

/// A day of the proleptic Gregorian calendar.
#[derive(Debug, Clone, Copy, PartialEq, Eq)]
pub struct Date {
    pub year: i32,
    pub month: u32,
    pub day: u32,
}

/// Whether the Gregorian year has a 29th of February.
pub open spec fn is_leap_year(year: int) -> bool {
    year % 4 == 0 && (year % 100 != 0 || year % 400 == 0)
}

/// The number of days of a month; 0 where there is no such month.
pub open spec fn days_in_month(year: int, month: int) -> int {
    if month == 2 {
        if is_leap_year(year) {
            29
        } else {
            28
        }
    } else if month == 4 || month == 6 || month == 9 || month == 11 {
        30
    } else if 1 <= month <= 12 {
        31
    } else {
        0
    }
}

/// Whether the calendar has the day, in a year that a date can lie in.
pub open spec fn is_calendar_date(year: int, month: int, day: int) -> bool {
    &&& MIN_YEAR <= year <= MAX_YEAR
    &&& 1 <= month <= 12
    &&& 1 <= day <= days_in_month(year, month)
}

/// Asks chrono's `NaiveDate::from_ymd_opt` whether it has the day. Trusted:
/// it has it exactly if the year is within `MIN_YEAR..=MAX_YEAR`, the month
/// within 1..=12, and the day within the month's length in the proleptic
/// Gregorian calendar.
#[verifier::external_body]
fn calendar_has(year: i32, month: u32, day: u32) -> (b: bool)
    ensures
        b == is_calendar_date(year as int, month as int, day as int),
{
    chrono::NaiveDate::from_ymd_opt(year, month, day).is_some()
}

impl Date {
    /// The date is a day of the calendar.
    pub open spec fn wf(self) -> bool {
        is_calendar_date(self.year as int, self.month as int, self.day as int)
    }

    /// The date with the given year, month and day, if the calendar has it.
    pub fn new(year: i32, month: u32, day: u32) -> (r: Option<Date>)
        ensures
            r == if is_calendar_date(year as int, month as int, day as int) {
                Some(Date { year, month, day })
            } else {
                None
            },
    {
        if calendar_has(year, month, day) {
            Some(Date { year, month, day })
        } else {
            None
        }
    }
}

/// One or two digits at `at` with `sign` right behind them: the number they
/// write, and the index behind the sign.
pub open spec fn short_number_at(s: Seq<char>, at: int, sign: char) -> Option<(nat, int)> {
    if 0 <= at && at + 1 < s.len() && is_digit(s[at]) && s[at + 1] == sign {
        Some((digit_value(s[at]), at + 2))
    } else if 0 <= at && at + 2 < s.len() && is_digit(s[at]) && is_digit(s[at + 1]) && s[at + 2]
        == sign {
        Some((digit_value(s[at]) * 10 + digit_value(s[at + 1]), at + 3))
    } else {
        None
    }
}

/// The month and day written at `at`: a short number with the month sign,
/// then a short number with the day sign.
pub open spec fn month_day_at(s: Seq<char>, at: int) -> Option<(nat, nat)> {
    match short_number_at(s, at, MONTH_SIGN) {
        Some((month, next)) => match short_number_at(s, next, DAY_SIGN) {
            Some((day, _)) => Some((month, day)),
            None => None,
        },
        None => None,
    }
}

/// The month and day written at the first index from `from` on that has any.
pub open spec fn month_day_from(s: Seq<char>, from: int) -> Option<(nat, nat)>
    decreases s.len() - from,
{
    if from >= s.len() {
        None
    } else if month_day_at(s, from) is Some {
        month_day_at(s, from)
    } else {
        month_day_from(s, from + 1)
    }
}

/// The first month and day that `s` writes.
pub open spec fn month_day(s: Seq<char>) -> Option<(nat, nat)> {
    month_day_from(s, 0)
}

/// The year of a header date read on the day `today`: a January read in
/// December belongs to the next year, anything else to this one. No other
/// turn of the year is looked for.
pub open spec fn inferred_year(month: nat, today: Date) -> int {
    if month == 1 && today.month == 12 {
        today.year + 1
    } else {
        today.year as int
    }
}

/// The date that the header text `text` names when read on the day `today`.
pub open spec fn resolved_date(text: Seq<char>, today: Date) -> Option<Date> {
    match month_day(text) {
        Some((month, day)) => {
            let year = inferred_year(month, today);
            if is_calendar_date(year, month as int, day as int) {
                Some(Date { year: year as i32, month: month as u32, day: day as u32 })
            } else {
                None
            }
        },
        None => None,
    }
}

/// `month_day` finds the leftmost place that writes a month and a day.
pub proof fn lemma_month_day_is_leftmost(s: Seq<char>, from: int)
    requires
        0 <= from,
    ensures
        match month_day_from(s, from) {
            Some(found) => exists|at: int|
                from <= at < s.len() && #[trigger] month_day_at(s, at) == Some(found) && forall|
                    before: int,
                |
                    from <= before < at ==> #[trigger] month_day_at(s, before) is None,
            None => forall|at: int| from <= at < s.len() ==> #[trigger] month_day_at(s, at) is None,
        },
    decreases s.len() - from,
{
    if from >= s.len() {
    } else if month_day_at(s, from) is Some {
        assert(month_day_at(s, from) == Some(month_day_from(s, from)->0));
    } else {
        lemma_month_day_is_leftmost(s, from + 1);
        match month_day_from(s, from + 1) {
            Some(found) => {
                let at = choose|at: int|
                    from + 1 <= at < s.len() && #[trigger] month_day_at(s, at) == Some(found)
                        && forall|before: int|
                        from + 1 <= before < at ==> #[trigger] month_day_at(s, before) is None;
                assert(month_day_at(s, at) == Some(found));
            },
            None => {},
        }
    }
}

/// Reads one or two digits at `at` with `sign` right behind them.
fn short_number(chars: &Vec<char>, at: usize, sign: char) -> (r: Option<(u32, usize)>)
    ensures
        match r {
            Some((value, next)) => short_number_at(chars@, at as int, sign) == Some(
                (value as nat, next as int),
            ) && value <= 99 && next <= chars.len(),
            None => short_number_at(chars@, at as int, sign) is None,
        },
{
    let n = chars.len();
    if at >= n || n - at < 2 {
        return None;
    }
    let first = match digit_of(chars[at]) {
        Some(d) => d,
        None => {
            return None;
        },
    };
    if chars[at + 1] == sign {
        return Some((first as u32, at + 2));
    }
    if n - at < 3 {
        return None;
    }
    match digit_of(chars[at + 1]) {
        Some(second) => {
            if chars[at + 2] == sign {
                Some((first as u32 * 10 + second as u32, at + 3))
            } else {
                None
            }
        },
        None => None,
    }
}

/// Finds the first month and day that `text` writes.
pub fn find_month_day(text: &str) -> (r: Option<(u32, u32)>)
    ensures
        match r {
            Some((month, day)) => month_day(text@) == Some((month as nat, day as nat)),
            None => month_day(text@) is None,
        },
{
    let chars = chars_of(text);
    let mut from: usize = 0;
    while from < chars.len()
        invariant
            from <= chars.len(),
            chars@ == text@,
            month_day(text@) == month_day_from(text@, from as int),
        decreases chars.len() - from,
    {
        if let Some((month, next)) = short_number(&chars, from, MONTH_SIGN) {
            if let Some((day, _)) = short_number(&chars, next, DAY_SIGN) {
                return Some((month, day));
            }
        }
        from += 1;
    }
    None
}

/// Turns the month and day of a header text into a date, read on the day
/// `today`.
pub fn resolve(text: &str, today: Date) -> (r: Option<Date>)
    ensures
        r == resolved_date(text@, today),
        r matches Some(date) ==> date.wf(),
{
    match find_month_day(text) {
        Some((month, day)) => {
            let year = if month == 1 && today.month == 12 {
                if today.year == i32::MAX {
                    return None;
                }
                today.year + 1
            } else {
                today.year
            };
            Date::new(year, month, day)
        },
        None => None,
    }
}

} // verus!
