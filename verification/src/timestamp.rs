//! Naive local timestamps: a calendar date and a time of day, with no time
//! zone attached.

use crate::calendar::lemma_day_number_bounds;
use crate::calendar::Date;
use crate::clock::TimeOfDay;
use chrono::NaiveDate;
use vstd::prelude::*;

verus! {

/// A date and a time of day on it.
#[derive(Clone, Copy, Debug, PartialEq, Eq, Structural)]
pub struct Timestamp {
    pub date: Date,
    pub time: TimeOfDay,
}

/// The whole minutes in a span of `seconds`, rounded towards zero.
pub open spec fn whole_minutes(seconds: int) -> int {
    if seconds >= 0 {
        seconds / 60
    } else {
        -((-seconds) / 60)
    }
}

/// The whole minutes that pass from `start` to `end`; negative where `end`
/// is the earlier of the two.
pub open spec fn minutes_between(start: Timestamp, end: Timestamp) -> int {
    whole_minutes(end.second_number() - start.second_number())
}

impl Timestamp {
    /// Whether both the date and the time exist.
    pub open spec fn wf(self) -> bool {
        self.date.wf() && self.time.wf()
    }

    /// The position of this moment on the time line, counted in seconds from
    /// midnight of the first day of year 0.
    pub open spec fn second_number(self) -> int {
        self.date.day_number() * 86400 + self.time.second_of_day()
    }

    /// Whether this moment comes before `other`, by date and then by time
    /// of day.
    pub open spec fn precedes(self, other: Timestamp) -> bool {
        self.date.precedes(other.date) || (self.date == other.date && self.time.precedes(
            other.time,
        ))
    }

    /// Whether this moment comes before `other`.
    pub fn is_before(&self, other: &Timestamp) -> (before: bool)
        ensures
            before == self.precedes(*other),
    {
        self.date.is_before(&other.date) || (self.date == other.date && self.time.is_before(
            &other.time,
        ))
    }

    /// Puts a date and a time of day together.
    pub fn new(date: Date, time: TimeOfDay) -> (timestamp: Timestamp)
        ensures
            timestamp == (Timestamp { date, time }),
    {
        Timestamp { date, time }
    }

    /// Whether both the date and the time exist.
    pub fn is_valid(&self) -> (valid: bool)
        ensures
            valid == self.wf(),
    {
        self.date.is_valid() && self.time.is_valid()
    }

    /// The whole minutes that pass from this moment to `later`; negative
    /// where `later` is in fact the earlier of the two.
    pub fn minutes_until(&self, later: &Timestamp) -> (minutes: i64)
        requires
            self.wf(),
            later.wf(),
        ensures
            minutes == minutes_between(*self, *later),
            -300_000_000_000 < minutes < 300_000_000_000,
    {
        proof {
            lemma_day_number_bounds(self.date);
            lemma_day_number_bounds(later.date);
        }
        chrono_minutes_between(self, later)
    }
}

/// Subtracts two `chrono::NaiveDateTime` values and calls
/// `chrono::TimeDelta::num_minutes` on the difference. Trusted: chrono
/// counts the seconds between two moments of the proleptic Gregorian
/// calendar, every day having 86400 of them, and `num_minutes` divides that
/// count by 60 rounding towards zero.
#[verifier::external_body]
fn chrono_minutes_between(start: &Timestamp, end: &Timestamp) -> (minutes: i64)
    requires
        start.wf(),
        end.wf(),
    ensures
        minutes == minutes_between(*start, *end),
{
    let from = NaiveDate::from_ymd_opt(start.date.year, start.date.month, start.date.day)
        .unwrap()
        .and_hms_opt(start.time.hour, start.time.minute, start.time.second)
        .unwrap();
    let to = NaiveDate::from_ymd_opt(end.date.year, end.date.month, end.date.day)
        .unwrap()
        .and_hms_opt(end.time.hour, end.time.minute, end.time.second)
        .unwrap();
    (to - from).num_minutes()
}

/// For timestamps that exist, the order by date and time of day is the
/// order of the time line.
pub proof fn lemma_precedes_is_earlier(a: Timestamp, b: Timestamp)
    requires
        a.wf(),
        b.wf(),
    ensures
        a.precedes(b) <==> a.second_number() < b.second_number(),
        a == b <==> a.second_number() == b.second_number(),
{
    crate::calendar::lemma_precedes_is_earlier(a.date, b.date);
}

/// Where both timestamps fall on a whole minute, a night from one day to the
/// next lasts at least one minute.
pub proof fn lemma_overnight_minutes(start: Timestamp, end: Timestamp)
    requires
        start.wf(),
        end.time.wf(),
        start.date.successor() == Some(end.date),
        start.time.second == 0,
        end.time.second == 0,
    ensures
        minutes_between(start, end) == 1440 + (end.time.hour * 60 + end.time.minute) - (
        start.time.hour * 60 + start.time.minute),
        0 < minutes_between(start, end) < 2880,
{
    crate::calendar::lemma_successor_is_next(start.date);
}

} // verus!
