//! Calendar dates and their literal.

use vstd::prelude::*;
use crate::decimal::digits;
use crate::text::{quote, quoted};
use crate::value::{standard_operator, SQLComp, ToSql};

verus! {

/// The first year that a date can lie in.
pub const MIN_YEAR: i32 = -262143;

/// The last year that a date can lie in.
pub const MAX_YEAR: i32 = 262142;

/// Whether `year` has a 29th of February. Years are counted as astronomers
/// do (the year before year 1 is year 0), by the Gregorian rule throughout.
pub open spec fn is_leap_year(year: int) -> bool {
    year % 4 == 0 && (year % 100 != 0 || year % 400 == 0)
}

/// The number of days of `month` in `year`, for a month from 1 to 12.
pub open spec fn days_in_month(year: int, month: int) -> int {
    if month == 2 {
        if is_leap_year(year) {
            29
        } else {
            28
        }
    } else if month == 4 || month == 6 || month == 9 || month == 11 {
        30
    } else {
        31
    }
}

/// Whether the calendar has the day `day` of `month` in `year`, within the
/// years that a date can lie in.
pub open spec fn valid_ymd(year: int, month: int, day: int) -> bool {
    &&& MIN_YEAR <= year <= MAX_YEAR
    &&& 1 <= month <= 12
    &&& 1 <= day <= days_in_month(year, month)
}

/// The digits of `n`, with zeros before them where they are fewer than
/// `width`.
pub open spec fn zero_padded(n: nat, width: nat) -> Seq<char> {
    let body = digits(n);
    if body.len() < width {
        Seq::new((width - body.len()) as nat, |i: int| '0') + body
    } else {
        body
    }
}

/// The text of a year: at least four digits, and a sign before them unless
/// the year lies between 0 and 9999.
pub open spec fn year_text(year: int) -> Seq<char> {
    if 0 <= year <= 9999 {
        zero_padded(year as nat, 4)
    } else if year < 0 {
        seq!['-'] + zero_padded((-year) as nat, 4)
    } else {
        seq!['+'] + zero_padded(year as nat, 4)
    }
}

/// The text of a date: year, month and day, parted by `-`, month and day with
/// two digits each.
pub open spec fn date_text(year: int, month: int, day: int) -> Seq<char> {
    year_text(year) + seq!['-'] + zero_padded(month as nat, 2) + seq!['-'] + zero_padded(
        day as nat,
        2,
    )
}

/// Calls `chrono::NaiveDate::from_ymd_opt` on the three numbers and
/// `chrono::NaiveDate::format` with the pattern `%Y-%m-%d` on the date that
/// comes back. Taken on trust: for a day that the calendar has, chrono makes
/// the date; it writes the year with `%Y` (four digits at least, zeros
/// first, and a sign outside 0 to 9999), the month with `%m` and the day with
/// `%d` (two digits each, zeros first).
#[verifier::external_body]
fn format_ymd(year: i32, month: u32, day: u32) -> (s: String)
    requires
        valid_ymd(year as int, month as int, day as int),
    ensures
        s@ == date_text(year as int, month as int, day as int),
{
    match chrono::NaiveDate::from_ymd_opt(year, month, day) {
        Some(date) => date.format("%Y-%m-%d").to_string(),
        None => String::new(),
    }
}

/// A day of the calendar: year, month and day of month. Only days that the
/// calendar has can be made.
pub struct CalendarDate {
    year: i32,
    month: u32,
    day: u32,
}

impl CalendarDate {
    #[verifier::type_invariant]
    spec fn on_calendar(self) -> bool {
        valid_ymd(self.year as int, self.month as int, self.day as int)
    }

    /// The year of the date.
    pub closed spec fn spec_year(&self) -> int {
        self.year as int
    }

    /// The month of the date, from 1 to 12.
    pub closed spec fn spec_month(&self) -> int {
        self.month as int
    }

    /// The day of the month, from 1.
    pub closed spec fn spec_day(&self) -> int {
        self.day as int
    }

    /// The date of the given year, month and day, if the calendar has it.
    pub fn from_ymd(year: i32, month: u32, day: u32) -> (date: Option<CalendarDate>)
        ensures
            date is Some <==> valid_ymd(year as int, month as int, day as int),
            date matches Some(d) ==> d.spec_year() == year && d.spec_month() == month
                && d.spec_day() == day,
    {
        if year < MIN_YEAR || year > MAX_YEAR || month < 1 || month > 12 || day < 1 {
            return None;
        }
        // A multiple of 400 is added, so that the remainders are taken of a
        // number above zero.
        let shifted: u32 = (year + 262400) as u32;
        let leap = shifted % 4 == 0 && (shifted % 100 != 0 || shifted % 400 == 0);
        let last: u32 = if month == 2 {
            if leap {
                29
            } else {
                28
            }
        } else if month == 4 || month == 6 || month == 9 || month == 11 {
            30
        } else {
            31
        };
        if day > last {
            return None;
        }
        Some(CalendarDate { year, month, day })
    }

    /// The year, month and day of the date. The calendar has that day.
    pub fn ymd(&self) -> (r: (i32, u32, u32))
        ensures
            r.0 == self.spec_year(),
            r.1 == self.spec_month(),
            r.2 == self.spec_day(),
            valid_ymd(self.spec_year(), self.spec_month(), self.spec_day()),
    {
        proof {
            use_type_invariant(self);
        }
        (self.year, self.month, self.day)
    }
}

impl ToSql for CalendarDate {
    /// The date as `YYYY-MM-DD`, in single quotes.
    open spec fn literal(&self) -> Seq<char> {
        quoted(date_text(self.spec_year(), self.spec_month(), self.spec_day()))
    }

    open spec fn operator(&self, kind: SQLComp) -> Seq<char> {
        standard_operator(kind)
    }

    fn to_sql(&self) -> (s: String) {
        proof {
            use_type_invariant(self);
        }
        let text = format_ymd(self.year, self.month, self.day);
        quote(text.as_str())
    }

    fn op_eq(&self) -> (op: &str) {
        "="
    }

    fn op_neq(&self) -> (op: &str) {
        "<>"
    }

    fn op_gt(&self) -> (op: &str) {
        ">"
    }

    fn op_lt(&self) -> (op: &str) {
        "<"
    }

    fn op_geq(&self) -> (op: &str) {
        ">="
    }

    fn op_leq(&self) -> (op: &str) {
        "<="
    }
}

} // verus!
