//! The recording workflow: the questions of one recording in their order,
//! what each answer changes, and what is asked of the store.
//!
//! The workflow does no input or output of its own. It is a state that names
//! the one thing to be done next, an [`Action`], and takes what came of it,
//! an [`Event`]. Whoever runs it asks the questions and talks to the store.

use crate::calendar::lemma_predecessor_is_previous;
use crate::calendar::Date;
use crate::clock::time_in;
use crate::clock::TimeOfDay;
use crate::config::Config;
use crate::metrics::summarize;
use crate::metrics::summary;
use crate::metrics::Summary;
use crate::scale::Exertion;
use crate::scale::Quality;
use crate::session::Dose;
use crate::session::ExistingSession;
use crate::session::SleepSession;
use crate::timestamp::Timestamp;
use vstd::prelude::*;

verus! {

/// The stations of a recording, in the order in which it passes them. The
/// last three are where it ends.
#[derive(Clone, Copy, Debug, PartialEq, Eq, Structural)]
pub enum Stage {
    SessionDate,
    StartTime,
    Lookup,
    Replace,
    Delete,
    MinutesToFallAsleep,
    AwakeCount,
    TimeAwake,
    EndTime,
    TimeInBedAfterWaking,
    Quality,
    Melatonin,
    Benadryl,
    Edible,
    Exertion,
    Insert,
    Recorded,
    Cancelled,
    Failed,
}

/// What is to be done next: a question to the user with the answer that is
/// offered first, a request to the store, or the end of the recording.
#[derive(Clone, Copy, Debug, PartialEq, Eq)]
#[allow(inconsistent_fields)]
pub enum Action {
    AskDate { default: Date },
    AskStartTime { default: Option<TimeOfDay> },
    FindSessionOnDate { date: Date },
    ConfirmReplace { existing: ExistingSession },
    DeleteSession { id: i64 },
    AskMinutesToFallAsleep { default: i32 },
    AskAwakeCount { default: i16 },
    AskTimeAwake { default: i32 },
    AskEndTime { default: Option<TimeOfDay> },
    AskTimeInBedAfterWaking { default: i32 },
    AskQuality { default: Quality },
    AskMelatonin { default: Dose },
    AskBenadryl { default: Dose },
    AskEdible { default: Dose },
    AskExertion { default: Exertion },
    InsertSession { session: SleepSession },
    /// The session is in the store: show its figures and stop.
    Report { summary: Summary },
    /// The user kept the session that was there: stop, nothing has changed.
    Cancel,
    /// The store has failed: stop with an error.
    Abort,
}

/// What came of an action.
#[derive(Clone, Copy, Debug, PartialEq, Eq, Structural)]
pub enum Event {
    Date(Date),
    Time(TimeOfDay),
    Number(i64),
    Quality(Quality),
    Dose(Dose),
    Exertion(Exertion),
    Confirmed(bool),
    /// The store has looked for a session on the date.
    Found(Option<ExistingSession>),
    /// The store has deleted the session.
    Deleted,
    /// The store has taken the new session.
    Inserted,
    /// The store could not do what was asked.
    StoreFailed,
}

/// The state of one recording.
#[derive(Clone, Copy, Debug, PartialEq, Eq, Structural)]
pub struct Recorder {
    pub stage: Stage,
    /// The date that the first question offers.
    pub default_date: Date,
    /// The start time that the settings offer, if they hold one.
    pub start_time_default: Option<TimeOfDay>,
    /// The end time that the settings offer, if they hold one.
    pub end_time_default: Option<TimeOfDay>,
    /// The session as far as it has been answered; what has not been asked
    /// yet holds the value that its question will offer.
    pub draft: SleepSession,
    /// The session found on the same date, from the lookup on.
    pub existing: Option<ExistingSession>,
}

/// The time that a settings text offers: the time of day it writes, if it
/// writes one.
pub open spec fn offered_time(text: Seq<char>) -> Option<TimeOfDay> {
    match time_in(text) {
        Ok(time) => Some(time),
        Err(_) => None,
    }
}

/// Midnight.
pub open spec fn midnight() -> TimeOfDay {
    TimeOfDay { hour: 0, minute: 0, second: 0 }
}

/// Whether `time` can be the answer to a question for a time of day: a time
/// that exists, on the minute.
pub open spec fn is_clock_answer(time: TimeOfDay) -> bool {
    time.wf() && time.second == 0
}

impl SleepSession {
    /// The session that has all answers still open: a night from `date` to
    /// the day after it, `next`.
    pub open spec fn blank(date: Date, next: Date) -> SleepSession {
        SleepSession {
            start: Timestamp { date, time: midnight() },
            minutes_to_fall_asleep: 0,
            end: Timestamp { date: next, time: midnight() },
            awake_count: 0,
            time_awake: 0,
            time_in_bed_after_waking: 0,
            quality: Quality::Okay,
            melatonin: Dose { micrograms: 0 },
            benadryl: Dose { micrograms: 0 },
            edible: Dose { micrograms: 0 },
            exertion: Exertion::Normal,
        }
    }

    /// Whether the session is what a recording makes: a night that begins on
    /// one day and ends on the next, both times on the minute, and no count
    /// or duration negative.
    pub open spec fn is_overnight(self) -> bool {
        &&& self.start.date.successor() == Some(self.end.date)
        &&& is_clock_answer(self.start.time)
        &&& is_clock_answer(self.end.time)
        &&& self.minutes_to_fall_asleep >= 0
        &&& self.awake_count >= 0
        &&& self.time_awake >= 0
        &&& self.time_in_bed_after_waking >= 0
    }

    /// Whether the session is what a recording makes.
    pub fn spans_one_night(&self) -> (overnight: bool)
        ensures
            overnight == self.is_overnight(),
    {
        let follows = match self.start.date.next_day() {
            Some(next) => next == self.end.date,
            None => false,
        };
        follows && self.start.time.is_valid() && self.start.time.second == 0
            && self.end.time.is_valid() && self.end.time.second == 0
            && self.minutes_to_fall_asleep >= 0 && self.awake_count >= 0 && self.time_awake >= 0
            && self.time_in_bed_after_waking >= 0
    }
}

impl Recorder {
    /// The recording before its first question, with `date` as the date that
    /// will be offered and `next` as the day after it.
    pub open spec fn initial(
        date: Date,
        next: Date,
        start_time_default: Option<TimeOfDay>,
        end_time_default: Option<TimeOfDay>,
    ) -> Recorder {
        Recorder {
            stage: Stage::SessionDate,
            default_date: date,
            start_time_default,
            end_time_default,
            draft: SleepSession::blank(date, next),
            existing: None,
        }
    }

    /// Whether the state is one that a recording can be in.
    pub open spec fn wf(self) -> bool {
        &&& self.default_date.wf()
        &&& self.draft.is_overnight()
        &&& (self.stage == Stage::Replace || self.stage == Stage::Delete) ==> self.existing is Some
    }

    /// Whether the recording is over.
    pub open spec fn is_over(self) -> bool {
        self.stage == Stage::Recorded || self.stage == Stage::Cancelled || self.stage
            == Stage::Failed
    }

    /// What is to be done in this state.
    pub open spec fn action(self) -> Action {
        match self.stage {
            Stage::SessionDate => Action::AskDate { default: self.default_date },
            Stage::StartTime => Action::AskStartTime { default: self.start_time_default },
            Stage::Lookup => Action::FindSessionOnDate { date: self.draft.start.date },
            Stage::Replace => Action::ConfirmReplace { existing: self.existing.unwrap() },
            Stage::Delete => Action::DeleteSession { id: self.existing.unwrap().id },
            Stage::MinutesToFallAsleep => Action::AskMinutesToFallAsleep {
                default: self.draft.minutes_to_fall_asleep,
            },
            Stage::AwakeCount => Action::AskAwakeCount { default: self.draft.awake_count },
            Stage::TimeAwake => Action::AskTimeAwake { default: self.draft.time_awake },
            Stage::EndTime => Action::AskEndTime { default: self.end_time_default },
            Stage::TimeInBedAfterWaking => Action::AskTimeInBedAfterWaking {
                default: self.draft.time_in_bed_after_waking,
            },
            Stage::Quality => Action::AskQuality { default: self.draft.quality },
            Stage::Melatonin => Action::AskMelatonin { default: self.draft.melatonin },
            Stage::Benadryl => Action::AskBenadryl { default: self.draft.benadryl },
            Stage::Edible => Action::AskEdible { default: self.draft.edible },
            Stage::Exertion => Action::AskExertion { default: self.draft.exertion },
            Stage::Insert => Action::InsertSession { session: self.draft },
            Stage::Recorded => Action::Report { summary: summary(self.draft) },
            Stage::Cancelled => Action::Cancel,
            Stage::Failed => Action::Abort,
        }
    }

    /// The state with `stage` as its stage and `draft` as its draft.
    pub open spec fn moved(self, stage: Stage, draft: SleepSession) -> Recorder {
        Recorder { stage, draft, ..self }
    }

    /// The state after `event`. An event that is no answer to what was
    /// asked, or an answer out of range, changes nothing: the same action is
    /// due again.
    pub open spec fn next(self, event: Event) -> Recorder {
        let draft = self.draft;
        match (self.stage, event) {
            (Stage::SessionDate, Event::Date(date)) => match date.successor() {
                Some(next) => self.moved(
                    Stage::StartTime,
                    SleepSession {
                        start: Timestamp { date, time: draft.start.time },
                        end: Timestamp { date: next, time: draft.end.time },
                        ..draft
                    },
                ),
                None => self,
            },
            (Stage::StartTime, Event::Time(time)) => if is_clock_answer(time) {
                self.moved(
                    Stage::Lookup,
                    SleepSession { start: Timestamp { date: draft.start.date, time }, ..draft },
                )
            } else {
                self
            },
            (Stage::Lookup, Event::Found(None)) => self.moved(Stage::MinutesToFallAsleep, draft),
            (Stage::Lookup, Event::Found(Some(existing))) => Recorder {
                stage: Stage::Replace,
                existing: Some(existing),
                ..self
            },
            (Stage::Replace, Event::Confirmed(true)) => self.moved(Stage::Delete, draft),
            (Stage::Replace, Event::Confirmed(false)) => self.moved(Stage::Cancelled, draft),
            (Stage::Delete, Event::Deleted) => self.moved(Stage::MinutesToFallAsleep, draft),
            (Stage::MinutesToFallAsleep, Event::Number(n)) => if 0 <= n <= i32::MAX {
                self.moved(
                    Stage::AwakeCount,
                    SleepSession { minutes_to_fall_asleep: n as i32, ..draft },
                )
            } else {
                self
            },
            (Stage::AwakeCount, Event::Number(n)) => if 0 <= n <= i16::MAX {
                self.moved(Stage::TimeAwake, SleepSession { awake_count: n as i16, ..draft })
            } else {
                self
            },
            (Stage::TimeAwake, Event::Number(n)) => if 0 <= n <= i32::MAX {
                self.moved(Stage::EndTime, SleepSession { time_awake: n as i32, ..draft })
            } else {
                self
            },
            (Stage::EndTime, Event::Time(time)) => if is_clock_answer(time) {
                self.moved(
                    Stage::TimeInBedAfterWaking,
                    SleepSession { end: Timestamp { date: draft.end.date, time }, ..draft },
                )
            } else {
                self
            },
            (Stage::TimeInBedAfterWaking, Event::Number(n)) => if 0 <= n <= i32::MAX {
                self.moved(
                    Stage::Quality,
                    SleepSession { time_in_bed_after_waking: n as i32, ..draft },
                )
            } else {
                self
            },
            (Stage::Quality, Event::Quality(quality)) => self.moved(
                Stage::Melatonin,
                SleepSession { quality, ..draft },
            ),
            (Stage::Melatonin, Event::Dose(dose)) => self.moved(
                Stage::Benadryl,
                SleepSession { melatonin: dose, ..draft },
            ),
            (Stage::Benadryl, Event::Dose(dose)) => self.moved(
                Stage::Edible,
                SleepSession { benadryl: dose, ..draft },
            ),
            (Stage::Edible, Event::Dose(dose)) => self.moved(
                Stage::Exertion,
                SleepSession { edible: dose, ..draft },
            ),
            (Stage::Exertion, Event::Exertion(exertion)) => self.moved(
                Stage::Insert,
                SleepSession { exertion, ..draft },
            ),
            (Stage::Insert, Event::Inserted) => self.moved(Stage::Recorded, draft),
            (Stage::Lookup, Event::StoreFailed) => self.moved(Stage::Failed, draft),
            (Stage::Delete, Event::StoreFailed) => self.moved(Stage::Failed, draft),
            (Stage::Insert, Event::StoreFailed) => self.moved(Stage::Failed, draft),
            _ => self,
        }
    }

    /// Begins a recording on the day `today`. The date offered first is the
    /// day before; the times offered are those of the settings, where they
    /// are times of day. Returns `None` where `today` has no day before it.
    pub fn start(config: &Config, today: Date) -> (recorder: Option<Recorder>)
        ensures
            recorder == match today.predecessor() {
                Some(yesterday) => Some(
                    Recorder::initial(
                        yesterday,
                        today,
                        offered_time(config@.start_time_default),
                        offered_time(config@.end_time_default),
                    ),
                ),
                None => None,
            },
            recorder matches Some(r) ==> r.wf(),
    {
        match today.previous_day() {
            Some(yesterday) => {
                proof {
                    lemma_predecessor_is_previous(today);
                }
                let start_time_default = match TimeOfDay::parse(config.start_time_default.as_str()) {
                    Ok(time) => Some(time),
                    Err(_) => None,
                };
                let end_time_default = match TimeOfDay::parse(config.end_time_default.as_str()) {
                    Ok(time) => Some(time),
                    Err(_) => None,
                };
                let midnight = TimeOfDay { hour: 0, minute: 0, second: 0 };
                Some(
                    Recorder {
                        stage: Stage::SessionDate,
                        default_date: yesterday,
                        start_time_default,
                        end_time_default,
                        draft: SleepSession {
                            start: Timestamp { date: yesterday, time: midnight },
                            minutes_to_fall_asleep: 0,
                            end: Timestamp { date: today, time: midnight },
                            awake_count: 0,
                            time_awake: 0,
                            time_in_bed_after_waking: 0,
                            quality: Quality::Okay,
                            melatonin: Dose { micrograms: 0 },
                            benadryl: Dose { micrograms: 0 },
                            edible: Dose { micrograms: 0 },
                            exertion: Exertion::Normal,
                        },
                        existing: None,
                    },
                )
            },
            None => None,
        }
    }

    /// Whether the state is one that a recording can be in. Every state that
    /// `start` and `advance` hand out is.
    pub fn is_well_formed(&self) -> (well_formed: bool)
        ensures
            well_formed == self.wf(),
    {
        let waits_for_decision = match self.stage {
            Stage::Replace | Stage::Delete => true,
            _ => false,
        };
        self.default_date.is_valid() && self.draft.spans_one_night() && (!waits_for_decision
            || self.existing.is_some())
    }

    /// Whether the recording is over.
    pub fn is_finished(&self) -> (over: bool)
        ensures
            over == self.is_over(),
    {
        match self.stage {
            Stage::Recorded | Stage::Cancelled | Stage::Failed => true,
            _ => false,
        }
    }

    /// What is to be done in this state.
    pub fn pending(&self) -> (action: Action)
        requires
            self.wf(),
        ensures
            action == self.action(),
    {
        match self.stage {
            Stage::SessionDate => Action::AskDate { default: self.default_date },
            Stage::StartTime => Action::AskStartTime { default: self.start_time_default },
            Stage::Lookup => Action::FindSessionOnDate { date: self.draft.start.date },
            Stage::Replace => match self.existing {
                Some(existing) => Action::ConfirmReplace { existing },
                None => Action::Abort,
            },
            Stage::Delete => match self.existing {
                Some(existing) => Action::DeleteSession { id: existing.id },
                None => Action::Abort,
            },
            Stage::MinutesToFallAsleep => Action::AskMinutesToFallAsleep {
                default: self.draft.minutes_to_fall_asleep,
            },
            Stage::AwakeCount => Action::AskAwakeCount { default: self.draft.awake_count },
            Stage::TimeAwake => Action::AskTimeAwake { default: self.draft.time_awake },
            Stage::EndTime => Action::AskEndTime { default: self.end_time_default },
            Stage::TimeInBedAfterWaking => Action::AskTimeInBedAfterWaking {
                default: self.draft.time_in_bed_after_waking,
            },
            Stage::Quality => Action::AskQuality { default: self.draft.quality },
            Stage::Melatonin => Action::AskMelatonin { default: self.draft.melatonin },
            Stage::Benadryl => Action::AskBenadryl { default: self.draft.benadryl },
            Stage::Edible => Action::AskEdible { default: self.draft.edible },
            Stage::Exertion => Action::AskExertion { default: self.draft.exertion },
            Stage::Insert => Action::InsertSession { session: self.draft },
            Stage::Recorded => {
                proof {
                    lemma_overnight_is_well_formed(self.draft);
                }
                Action::Report { summary: summarize(&self.draft) }
            },
            Stage::Cancelled => Action::Cancel,
            Stage::Failed => Action::Abort,
        }
    }

    /// Takes what came of the pending action, and returns what is to be
    /// done next.
    pub fn advance(&mut self, event: Event) -> (action: Action)
        requires
            old(self).wf(),
        ensures
            *final(self) == old(self).next(event),
            final(self).wf(),
            action == final(self).action(),
    {
        match (self.stage, event) {
            (Stage::SessionDate, Event::Date(date)) => {
                match date.next_day() {
                    Some(next) => {
                        self.stage = Stage::StartTime;
                        self.draft.start.date = date;
                        self.draft.end.date = next;
                    },
                    None => {},
                }
            },
            (Stage::StartTime, Event::Time(time)) => {
                if time.is_valid() && time.second == 0 {
                    self.stage = Stage::Lookup;
                    self.draft.start.time = time;
                }
            },
            (Stage::Lookup, Event::Found(None)) => {
                self.stage = Stage::MinutesToFallAsleep;
            },
            (Stage::Lookup, Event::Found(Some(existing))) => {
                self.stage = Stage::Replace;
                self.existing = Some(existing);
            },
            (Stage::Replace, Event::Confirmed(true)) => {
                self.stage = Stage::Delete;
            },
            (Stage::Replace, Event::Confirmed(false)) => {
                self.stage = Stage::Cancelled;
            },
            (Stage::Delete, Event::Deleted) => {
                self.stage = Stage::MinutesToFallAsleep;
            },
            (Stage::MinutesToFallAsleep, Event::Number(n)) => {
                if 0 <= n && n <= i32::MAX as i64 {
                    self.stage = Stage::AwakeCount;
                    self.draft.minutes_to_fall_asleep = n as i32;
                }
            },
            (Stage::AwakeCount, Event::Number(n)) => {
                if 0 <= n && n <= i16::MAX as i64 {
                    self.stage = Stage::TimeAwake;
                    self.draft.awake_count = n as i16;
                }
            },
            (Stage::TimeAwake, Event::Number(n)) => {
                if 0 <= n && n <= i32::MAX as i64 {
                    self.stage = Stage::EndTime;
                    self.draft.time_awake = n as i32;
                }
            },
            (Stage::EndTime, Event::Time(time)) => {
                if time.is_valid() && time.second == 0 {
                    self.stage = Stage::TimeInBedAfterWaking;
                    self.draft.end.time = time;
                }
            },
            (Stage::TimeInBedAfterWaking, Event::Number(n)) => {
                if 0 <= n && n <= i32::MAX as i64 {
                    self.stage = Stage::Quality;
                    self.draft.time_in_bed_after_waking = n as i32;
                }
            },
            (Stage::Quality, Event::Quality(quality)) => {
                self.stage = Stage::Melatonin;
                self.draft.quality = quality;
            },
            (Stage::Melatonin, Event::Dose(dose)) => {
                self.stage = Stage::Benadryl;
                self.draft.melatonin = dose;
            },
            (Stage::Benadryl, Event::Dose(dose)) => {
                self.stage = Stage::Edible;
                self.draft.benadryl = dose;
            },
            (Stage::Edible, Event::Dose(dose)) => {
                self.stage = Stage::Exertion;
                self.draft.edible = dose;
            },
            (Stage::Exertion, Event::Exertion(exertion)) => {
                self.stage = Stage::Insert;
                self.draft.exertion = exertion;
            },
            (Stage::Insert, Event::Inserted) => {
                self.stage = Stage::Recorded;
            },
            (Stage::Lookup, Event::StoreFailed) => {
                self.stage = Stage::Failed;
            },
            (Stage::Delete, Event::StoreFailed) => {
                self.stage = Stage::Failed;
            },
            (Stage::Insert, Event::StoreFailed) => {
                self.stage = Stage::Failed;
            },
            _ => {},
        }
        self.pending()
    }
}

/// What a recording makes keeps to the rules of the record, and its night
/// lasts at least a minute and less than two days.
pub proof fn lemma_overnight_is_well_formed(session: SleepSession)
    requires
        session.is_overnight(),
    ensures
        session.wf(),
        0 < crate::metrics::time_in_bed(session) < 2880,
        crate::metrics::efficiency(session) is Ok,
{
    crate::timestamp::lemma_overnight_minutes(session.start, session.end);
}

} // verus!
