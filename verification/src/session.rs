//! One night of sleep, as it is recorded.

use crate::calendar::Date;
use crate::scale::Exertion;
use crate::scale::Quality;
use crate::timestamp::Timestamp;
use vstd::prelude::*;

verus! {

/// An amount of a sleep aid, kept in thousandths of a milligram so that it
/// is an exact number.
#[derive(Clone, Copy, Debug, PartialEq, Eq, Structural)]
pub struct Dose {
    pub micrograms: u64,
}

impl Dose {
    /// No dose at all.
    pub fn none() -> (dose: Dose)
        ensures
            dose.micrograms == 0,
    {
        Dose { micrograms: 0 }
    }

    /// The dose of `micrograms` thousandths of a milligram.
    pub fn from_micrograms(micrograms: u64) -> (dose: Dose)
        ensures
            dose.micrograms == micrograms,
    {
        Dose { micrograms }
    }
}

/// One night of sleep. The day on which `start` falls is the date of the
/// session.
#[derive(Clone, Copy, Debug, PartialEq, Eq, Structural)]
pub struct SleepSession {
    /// When the night began.
    pub start: Timestamp,
    pub minutes_to_fall_asleep: i32,
    /// When the night ended.
    pub end: Timestamp,
    /// How often the sleeper woke up, less one.
    pub awake_count: i16,
    /// The minutes spent awake during the night, all wake-ups together.
    pub time_awake: i32,
    pub time_in_bed_after_waking: i32,
    pub quality: Quality,
    pub melatonin: Dose,
    pub benadryl: Dose,
    pub edible: Dose,
    pub exertion: Exertion,
}

impl SleepSession {
    /// Whether the session keeps to the rules of the record: both timestamps
    /// exist, the night ends after it starts, and no count or duration is
    /// negative.
    pub open spec fn wf(self) -> bool {
        &&& self.start.wf()
        &&& self.end.wf()
        &&& self.start.second_number() < self.end.second_number()
        &&& self.minutes_to_fall_asleep >= 0
        &&& self.awake_count >= 0
        &&& self.time_awake >= 0
        &&& self.time_in_bed_after_waking >= 0
    }

    /// The date of the session: the day on which the night began.
    pub open spec fn date(self) -> Date {
        self.start.date
    }

    /// The date of the session: the day on which the night began.
    pub fn session_date(&self) -> (date: Date)
        ensures
            date == self.date(),
    {
        self.start.date
    }
}

/// What a lookup tells of a session that is already in the store. A store
/// may hold a timestamp in a form that cannot be read; it is then left out.
#[derive(Clone, Copy, Debug, PartialEq, Eq, Structural)]
pub struct ExistingSession {
    pub id: i64,
    /// The start of the night, where the store holds one that can be read.
    pub start: Option<Timestamp>,
    /// The end of the night, where the store holds one that can be read.
    pub end: Option<Timestamp>,
}

} // verus!
