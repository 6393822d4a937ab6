//! Calendar dates and naive wall-clock timestamps.
//!
//! Dates are proleptic Gregorian dates with astronomical year numbering, in the
//! range that `chrono::NaiveDate` can hold. The date arithmetic itself is done
//! by `chrono`; this module states what it computes.

use chrono::Datelike;
use chrono::Days;
use chrono::NaiveDate;
use vstd::prelude::*;

verus! {

/// The earliest year a date can have.
pub const MIN_YEAR: i32 = -262143;

/// The latest year a date can have.
pub const MAX_YEAR: i32 = 262142;

/// Whether `year` has a 29th of February.
pub open spec fn is_leap_year(year: int) -> bool {
    year % 4 == 0 && (year % 100 != 0 || year % 400 == 0)
}

/// The number of days of `month`, a month from 1 to 12, in a leap year or
/// in a common one.
pub open spec fn month_length(leap: bool, month: int) -> int {
    if month == 2 {
        if leap {
            29
        } else {
            28
        }
    } else if month == 4 || month == 6 || month == 9 || month == 11 {
        30
    } else {
        31
    }
}

/// The number of days of `month` in `year`, for a month from 1 to 12.
pub open spec fn days_in_month(year: int, month: int) -> int {
    month_length(is_leap_year(year), month)
}

/// Whether year, month and day name a day of the calendar.
pub open spec fn is_calendar_date(year: int, month: int, day: int) -> bool {
    &&& MIN_YEAR <= year <= MAX_YEAR
    &&& 1 <= month <= 12
    &&& 1 <= day <= days_in_month(year, month)
}

/// The number of days between the first day of year 0 and the first day of
/// `year` (negative for negative years).
pub open spec fn days_before_year(year: int) -> int {
    365 * year + (year + 3) / 4 - (year + 99) / 100 + (year + 399) / 400
}

/// The number of days that precede the first day of `month` in its year, a
/// leap year or a common one.
pub open spec fn month_offset(leap: bool, month: int) -> int {
    let common: int = if month <= 1 {
        0
    } else if month == 2 {
        31
    } else if month == 3 {
        59
    } else if month == 4 {
        90
    } else if month == 5 {
        120
    } else if month == 6 {
        151
    } else if month == 7 {
        181
    } else if month == 8 {
        212
    } else if month == 9 {
        243
    } else if month == 10 {
        273
    } else if month == 11 {
        304
    } else {
        334
    };
    if month > 2 && leap {
        common + 1
    } else {
        common
    }
}

/// The number of days of `year` that precede the first day of `month`.
pub open spec fn days_before_month(year: int, month: int) -> int {
    month_offset(is_leap_year(year), month)
}

/// A day of the calendar.
#[derive(Clone, Copy, Debug, PartialEq, Eq, Structural)]
pub struct Date {
    pub year: i32,
    pub month: u32,
    pub day: u32,
}

impl Date {
    /// Whether this value names a day that exists.
    pub open spec fn wf(self) -> bool {
        is_calendar_date(self.year as int, self.month as int, self.day as int)
    }

    /// The position of this day on the time line, counted in days from the
    /// first day of year 0.
    pub open spec fn day_number(self) -> int {
        days_before_year(self.year as int) + days_before_month(
            self.year as int,
            self.month as int,
        ) + (self.day - 1)
    }

    /// The day after this one, if the calendar has one.
    pub open spec fn successor(self) -> Option<Date> {
        if !self.wf() {
            None
        } else if (self.day as int) < days_in_month(self.year as int, self.month as int) {
            Some(Date { year: self.year, month: self.month, day: (self.day + 1) as u32 })
        } else if self.month < 12 {
            Some(Date { year: self.year, month: (self.month + 1) as u32, day: 1 })
        } else if self.year < MAX_YEAR {
            Some(Date { year: (self.year + 1) as i32, month: 1, day: 1 })
        } else {
            None
        }
    }

    /// The day before this one, if the calendar has one.
    pub open spec fn predecessor(self) -> Option<Date> {
        if !self.wf() {
            None
        } else if self.day > 1 {
            Some(Date { year: self.year, month: self.month, day: (self.day - 1) as u32 })
        } else if self.month > 1 {
            Some(
                Date {
                    year: self.year,
                    month: (self.month - 1) as u32,
                    day: days_in_month(self.year as int, self.month - 1) as u32,
                },
            )
        } else if self.year > MIN_YEAR {
            Some(Date { year: (self.year - 1) as i32, month: 12, day: 31 })
        } else {
            None
        }
    }

    /// Whether this date comes before `other` in the order of year, month
    /// and day.
    pub open spec fn precedes(self, other: Date) -> bool {
        ||| self.year < other.year
        ||| self.year == other.year && self.month < other.month
        ||| self.year == other.year && self.month == other.month && self.day < other.day
    }

    /// Whether this date comes before `other`.
    pub fn is_before(&self, other: &Date) -> (before: bool)
        ensures
            before == self.precedes(*other),
    {
        self.year < other.year || (self.year == other.year && (self.month < other.month || (
        self.month == other.month && self.day < other.day)))
    }

    /// Makes a date from year, month and day. Returns `None` unless they name
    /// a day that exists.
    pub fn from_ymd(year: i32, month: u32, day: u32) -> (date: Option<Date>)
        ensures
            date is Some <==> is_calendar_date(year as int, month as int, day as int),
            date is Some ==> date == Some(Date { year, month, day }),
    {
        chrono_date(year, month, day)
    }

    /// Whether this value names a day that exists.
    pub fn is_valid(&self) -> (valid: bool)
        ensures
            valid == self.wf(),
    {
        chrono_date(self.year, self.month, self.day).is_some()
    }

    /// The day after this one. Returns `None` for the last day of the
    /// calendar, and for a value that names no day.
    pub fn next_day(&self) -> (next: Option<Date>)
        ensures
            next == self.successor(),
    {
        if self.is_valid() {
            chrono_next_day(self.year, self.month, self.day)
        } else {
            None
        }
    }

    /// The day before this one. Returns `None` for the first day of the
    /// calendar, and for a value that names no day.
    pub fn previous_day(&self) -> (previous: Option<Date>)
        ensures
            previous == self.predecessor(),
    {
        if self.is_valid() {
            chrono_previous_day(self.year, self.month, self.day)
        } else {
            None
        }
    }
}

/// Calls `chrono::NaiveDate::from_ymd_opt`. Trusted: the call returns a date
/// exactly when year, month and day name a day of the proleptic Gregorian
/// calendar within chrono's range of years, and that date has the year, month
/// and day it was made from.
#[verifier::external_body]
fn chrono_date(year: i32, month: u32, day: u32) -> (date: Option<Date>)
    ensures
        date == if is_calendar_date(year as int, month as int, day as int) {
            Some(Date { year, month, day })
        } else {
            None::<Date>
        },
{
    NaiveDate::from_ymd_opt(year, month, day).map(
        |d| Date { year: d.year(), month: d.month(), day: d.day() },
    )
}

/// Calls `chrono::NaiveDate::checked_add_days` with one day, on a day that
/// exists. Trusted: the result is the next day of the calendar, and `None`
/// where that day would lie after the last year chrono can hold.
#[verifier::external_body]
fn chrono_next_day(year: i32, month: u32, day: u32) -> (next: Option<Date>)
    requires
        is_calendar_date(year as int, month as int, day as int),
    ensures
        next == (Date { year, month, day }).successor(),
{
    NaiveDate::from_ymd_opt(year, month, day).unwrap().checked_add_days(Days::new(1)).map(
        |d| Date { year: d.year(), month: d.month(), day: d.day() },
    )
}

/// Calls `chrono::NaiveDate::checked_sub_days` with one day, on a day that
/// exists. Trusted: the result is the previous day of the calendar, and
/// `None` where that day would lie before the first year chrono can hold.
#[verifier::external_body]
fn chrono_previous_day(year: i32, month: u32, day: u32) -> (previous: Option<Date>)
    requires
        is_calendar_date(year as int, month as int, day as int),
    ensures
        previous == (Date { year, month, day }).predecessor(),
{
    NaiveDate::from_ymd_opt(year, month, day).unwrap().checked_sub_days(Days::new(1)).map(
        |d| Date { year: d.year(), month: d.month(), day: d.day() },
    )
}

proof fn lemma_month_steps(leap: bool, month: int)
    requires
        1 <= month <= 12,
    ensures
        28 <= month_length(leap, month) <= 31,
        month < 12 ==> month_offset(leap, month + 1) == month_offset(leap, month) + month_length(
            leap,
            month,
        ),
        month == 12 ==> month_offset(leap, month) + month_length(leap, month) == (if leap {
            366int
        } else {
            365int
        }),
        month_offset(leap, 1) == 0,
{
}

/// The day after a day is one further on the time line.
pub proof fn lemma_successor_is_next(date: Date)
    requires
        date.successor() is Some,
    ensures
        date.successor().unwrap().wf(),
        date.successor().unwrap().day_number() == date.day_number() + 1,
        date.successor().unwrap().predecessor() == Some(date),
{
    let year = date.year as int;
    let month = date.month as int;
    let leap = is_leap_year(year);
    let next = date.successor().unwrap();
    lemma_month_steps(leap, month);
    if (date.day as int) < days_in_month(year, month) {
        assert(next == Date { year: date.year, month: date.month, day: (date.day + 1) as u32 });
    } else if date.month < 12 {
        lemma_month_steps(leap, month + 1);
        assert(next == Date { year: date.year, month: (date.month + 1) as u32, day: 1 });
        assert(date.day == month_length(leap, month));
    } else {
        lemma_year_length(year);
        lemma_month_steps(is_leap_year(year + 1), 1);
        assert(next == Date { year: (date.year + 1) as i32, month: 1, day: 1 });
        assert(date.day == 31);
    }
}

/// The day before a day is one back on the time line.
pub proof fn lemma_predecessor_is_previous(date: Date)
    requires
        date.predecessor() is Some,
    ensures
        date.predecessor().unwrap().wf(),
        date.predecessor().unwrap().day_number() == date.day_number() - 1,
        date.predecessor().unwrap().successor() == Some(date),
{
    let year = date.year as int;
    let month = date.month as int;
    let leap = is_leap_year(year);
    let previous = date.predecessor().unwrap();
    lemma_month_steps(leap, month);
    if date.day > 1 {
        assert(previous == Date { year: date.year, month: date.month, day: (date.day - 1) as u32 });
    } else if date.month > 1 {
        lemma_month_steps(leap, month - 1);
        assert(previous == Date {
            year: date.year,
            month: (date.month - 1) as u32,
            day: month_length(leap, month - 1) as u32,
        });
    } else {
        lemma_year_length(year - 1);
        lemma_month_steps(is_leap_year(year - 1), 12);
        assert(previous == Date { year: (date.year - 1) as i32, month: 12, day: 31 });
    }
}

/// Days of the calendar lie within a hundred million days of year 0.
pub proof fn lemma_day_number_bounds(date: Date)
    requires
        date.wf(),
    ensures
        -96_000_000 < date.day_number() < 96_000_000,
{
}

/// The first days of later years lie later on the time line, by at least
/// 365 days for each year.
pub proof fn lemma_years_rise(earlier: int, later: int)
    requires
        earlier <= later,
    ensures
        days_before_year(later) - days_before_year(earlier) >= 365 * (later - earlier),
    decreases later - earlier,
{
    if earlier < later {
        lemma_years_rise(earlier, later - 1);
    }
}

proof fn lemma_days_within_year(leap: bool, m1: int, d1: int, m2: int, d2: int)
    requires
        1 <= m1 <= 12,
        1 <= m2 <= 12,
        1 <= d1 <= month_length(leap, m1),
        1 <= d2 <= month_length(leap, m2),
    ensures
        (m1 < m2 || (m1 == m2 && d1 < d2)) <==> month_offset(leap, m1) + d1 < month_offset(
            leap,
            m2,
        ) + d2,
        0 <= month_offset(leap, m1) + d1 - 1 < (if leap {
            366int
        } else {
            365int
        }),
{
}

proof fn lemma_fourth_year(year: int)
    ensures
        (year + 4) / 4 - (year + 3) / 4 == (if year % 4 == 0 {
            1int
        } else {
            0int
        }),
{
}

proof fn lemma_hundredth_year(year: int)
    ensures
        (year + 100) / 100 - (year + 99) / 100 == (if year % 100 == 0 {
            1int
        } else {
            0int
        }),
{
}

proof fn lemma_four_hundredth_year(year: int)
    ensures
        (year + 400) / 400 - (year + 399) / 400 == (if year % 400 == 0 {
            1int
        } else {
            0int
        }),
        year % 400 == 0 ==> year % 100 == 0,
        year % 100 == 0 ==> year % 4 == 0,
{
}

proof fn lemma_year_length(year: int)
    ensures
        days_before_year(year + 1) - days_before_year(year) == (if is_leap_year(year) {
            366int
        } else {
            365int
        }),
{
    lemma_fourth_year(year);
    lemma_hundredth_year(year);
    lemma_four_hundredth_year(year);
}

/// The order of year, month and day is the order of the time line.
pub proof fn lemma_precedes_is_earlier(a: Date, b: Date)
    requires
        a.wf(),
        b.wf(),
    ensures
        a.precedes(b) <==> a.day_number() < b.day_number(),
        a == b <==> a.day_number() == b.day_number(),
{
    let leap_a = is_leap_year(a.year as int);
    let leap_b = is_leap_year(b.year as int);
    lemma_days_within_year(leap_a, a.month as int, a.day as int, a.month as int, a.day as int);
    lemma_days_within_year(leap_b, b.month as int, b.day as int, b.month as int, b.day as int);
    if a.year < b.year {
        lemma_year_length(a.year as int);
        lemma_years_rise(a.year + 1, b.year as int);
    } else if b.year < a.year {
        lemma_year_length(b.year as int);
        lemma_years_rise(b.year + 1, a.year as int);
    } else {
        lemma_days_within_year(leap_a, a.month as int, a.day as int, b.month as int, b.day as int);
    }
}

} // verus!
