use sleep_log::calendar::Date;
use sleep_log::clock::TimeOfDay;
use sleep_log::config::Config;
use sleep_log::metrics::MetricError;
use sleep_log::metrics::Summary;
use sleep_log::recorder::Action;
use sleep_log::recorder::Event;
use sleep_log::recorder::Recorder;
use sleep_log::recorder::Stage;
use sleep_log::scale::Exertion;
use sleep_log::scale::Quality;
use sleep_log::session::Dose;
use sleep_log::session::ExistingSession;
use sleep_log::session::SleepSession;
use sleep_log::timestamp::Timestamp;

fn date(year: i32, month: u32, day: u32) -> Date {
    Date { year, month, day }
}

fn time(hour: u32, minute: u32) -> TimeOfDay {
    TimeOfDay { hour, minute, second: 0 }
}

fn settings() -> Config {
    Config::with_db_file("/tmp/slog.db".to_string())
}

fn begin() -> Recorder {
    Recorder::start(&settings(), date(2024, 3, 10)).unwrap()
}

/// A recording that has got its date and start time and waits for the lookup.
fn at_lookup() -> Recorder {
    let mut recorder = begin();
    recorder.advance(Event::Date(date(2024, 3, 5)));
    recorder.advance(Event::Time(time(22, 15)));
    recorder
}

/// A recording that has found nothing on its date and asks its first number.
fn past_lookup() -> Recorder {
    let mut recorder = at_lookup();
    recorder.advance(Event::Found(None));
    recorder
}

fn existing() -> ExistingSession {
    ExistingSession {
        id: 7,
        start: Some(Timestamp::new(date(2024, 3, 5), time(21, 0))),
        end: Some(Timestamp::new(date(2024, 3, 6), time(5, 0))),
    }
}

#[test]
fn a_recording_begins_by_asking_for_the_date_with_yesterday_offered() {
    let recorder = begin();
    assert_eq!(recorder.stage, Stage::SessionDate);
    assert_eq!(recorder.pending(), Action::AskDate { default: date(2024, 3, 9) });
    assert!(!recorder.is_finished());
    let new_year = Recorder::start(&settings(), date(2024, 1, 1)).unwrap();
    assert_eq!(new_year.pending(), Action::AskDate { default: date(2023, 12, 31) });
    let march = Recorder::start(&settings(), date(2024, 3, 1)).unwrap();
    assert_eq!(march.pending(), Action::AskDate { default: date(2024, 2, 29) });
}

#[test]
fn no_recording_begins_on_the_first_day_of_the_calendar() {
    assert_eq!(Recorder::start(&settings(), date(-262143, 1, 1)), None);
    assert_eq!(Recorder::start(&settings(), date(2024, 2, 30)), None);
}

#[test]
fn the_times_offered_are_those_of_the_settings() {
    let mut recorder = begin();
    assert_eq!(
        recorder.advance(Event::Date(date(2024, 3, 5))),
        Action::AskStartTime { default: Some(time(21, 30)) }
    );
    assert_eq!(recorder.end_time_default, Some(time(5, 30)));
    let mut config = settings();
    config.start_time_default = "late".to_string();
    config.end_time_default = "06:05".to_string();
    let mut recorder = Recorder::start(&config, date(2024, 3, 10)).unwrap();
    assert_eq!(
        recorder.advance(Event::Date(date(2024, 3, 5))),
        Action::AskStartTime { default: None }
    );
    assert_eq!(recorder.end_time_default, Some(time(6, 5)));
}

#[test]
fn the_questions_come_in_their_order() {
    let mut recorder = begin();
    assert_eq!(
        recorder.advance(Event::Date(date(2024, 3, 5))),
        Action::AskStartTime { default: Some(time(21, 30)) }
    );
    assert_eq!(
        recorder.advance(Event::Time(time(22, 15))),
        Action::FindSessionOnDate { date: date(2024, 3, 5) }
    );
    assert_eq!(
        recorder.advance(Event::Found(None)),
        Action::AskMinutesToFallAsleep { default: 0 }
    );
    assert_eq!(recorder.advance(Event::Number(12)), Action::AskAwakeCount { default: 0 });
    assert_eq!(recorder.advance(Event::Number(2)), Action::AskTimeAwake { default: 0 });
    assert_eq!(
        recorder.advance(Event::Number(25)),
        Action::AskEndTime { default: Some(time(5, 30)) }
    );
    assert_eq!(
        recorder.advance(Event::Time(time(6, 45))),
        Action::AskTimeInBedAfterWaking { default: 0 }
    );
    assert_eq!(
        recorder.advance(Event::Number(8)),
        Action::AskQuality { default: Quality::Okay }
    );
    assert_eq!(
        recorder.advance(Event::Quality(Quality::Terrible)),
        Action::AskMelatonin { default: Dose::none() }
    );
    assert_eq!(
        recorder.advance(Event::Dose(Dose::from_micrograms(3000))),
        Action::AskBenadryl { default: Dose::none() }
    );
    assert_eq!(
        recorder.advance(Event::Dose(Dose::from_micrograms(25000))),
        Action::AskEdible { default: Dose::none() }
    );
    assert_eq!(
        recorder.advance(Event::Dose(Dose::from_micrograms(500))),
        Action::AskExertion { default: Exertion::Normal }
    );
    let session = SleepSession {
        start: Timestamp::new(date(2024, 3, 5), time(22, 15)),
        minutes_to_fall_asleep: 12,
        end: Timestamp::new(date(2024, 3, 6), time(6, 45)),
        awake_count: 2,
        time_awake: 25,
        time_in_bed_after_waking: 8,
        quality: Quality::Terrible,
        melatonin: Dose::from_micrograms(3000),
        benadryl: Dose::from_micrograms(25000),
        edible: Dose::from_micrograms(500),
        exertion: Exertion::Exhausted,
    };
    assert_eq!(
        recorder.advance(Event::Exertion(Exertion::Exhausted)),
        Action::InsertSession { session }
    );
    assert!(!recorder.is_finished());
    assert_eq!(
        recorder.advance(Event::Inserted),
        Action::Report {
            summary: Summary {
                total_time_in_bed: 510,
                total_sleep_minutes: 465,
                sleep_efficiency: Ok(912),
            },
        }
    );
    assert_eq!(recorder.stage, Stage::Recorded);
    assert!(recorder.is_finished());
}

#[test]
fn the_night_ends_on_the_day_after_it_began() {
    let mut recorder = begin();
    recorder.advance(Event::Date(date(2024, 2, 29)));
    assert_eq!(recorder.draft.start.date, date(2024, 2, 29));
    assert_eq!(recorder.draft.end.date, date(2024, 3, 1));
    let mut recorder = begin();
    recorder.advance(Event::Date(date(2023, 12, 31)));
    assert_eq!(recorder.draft.start.date, date(2023, 12, 31));
    assert_eq!(recorder.draft.end.date, date(2024, 1, 1));
}

#[test]
fn a_date_that_does_not_exist_or_has_no_next_day_is_asked_again() {
    let mut recorder = begin();
    let before = recorder;
    assert_eq!(
        recorder.advance(Event::Date(date(2023, 2, 29))),
        Action::AskDate { default: date(2024, 3, 9) }
    );
    assert_eq!(
        recorder.advance(Event::Date(date(262142, 12, 31))),
        Action::AskDate { default: date(2024, 3, 9) }
    );
    assert_eq!(recorder, before);
}

#[test]
fn a_time_that_does_not_exist_is_asked_again() {
    let mut recorder = begin();
    recorder.advance(Event::Date(date(2024, 3, 5)));
    let before = recorder;
    assert_eq!(
        recorder.advance(Event::Time(time(24, 0))),
        Action::AskStartTime { default: Some(time(21, 30)) }
    );
    assert_eq!(
        recorder.advance(Event::Time(TimeOfDay { hour: 22, minute: 0, second: 30 })),
        Action::AskStartTime { default: Some(time(21, 30)) }
    );
    assert_eq!(recorder, before);
}

#[test]
fn a_number_out_of_range_is_asked_again() {
    let mut recorder = past_lookup();
    let before = recorder;
    assert_eq!(recorder.advance(Event::Number(-1)), Action::AskMinutesToFallAsleep { default: 0 });
    assert_eq!(
        recorder.advance(Event::Number(i32::MAX as i64 + 1)),
        Action::AskMinutesToFallAsleep { default: 0 }
    );
    assert_eq!(recorder, before);
    assert_eq!(
        recorder.advance(Event::Number(i32::MAX as i64)),
        Action::AskAwakeCount { default: 0 }
    );
    assert_eq!(recorder.draft.minutes_to_fall_asleep, i32::MAX);
    assert_eq!(recorder.advance(Event::Number(-1)), Action::AskAwakeCount { default: 0 });
    assert_eq!(
        recorder.advance(Event::Number(i16::MAX as i64 + 1)),
        Action::AskAwakeCount { default: 0 }
    );
    assert_eq!(
        recorder.advance(Event::Number(i16::MAX as i64)),
        Action::AskTimeAwake { default: 0 }
    );
    assert_eq!(recorder.draft.awake_count, i16::MAX);
    assert_eq!(recorder.advance(Event::Number(-5)), Action::AskTimeAwake { default: 0 });
    assert_eq!(recorder.advance(Event::Number(0)), Action::AskEndTime { default: Some(time(5, 30)) });
    recorder.advance(Event::Time(time(5, 30)));
    assert_eq!(
        recorder.advance(Event::Number(i64::MIN)),
        Action::AskTimeInBedAfterWaking { default: 0 }
    );
    assert_eq!(
        recorder.advance(Event::Number(i64::MAX)),
        Action::AskTimeInBedAfterWaking { default: 0 }
    );
    assert_eq!(recorder.stage, Stage::TimeInBedAfterWaking);
}

#[test]
fn an_answer_to_another_question_changes_nothing() {
    let mut recorder = begin();
    let before = recorder;
    let events = [
        Event::Time(time(22, 0)),
        Event::Number(3),
        Event::Quality(Quality::Blah),
        Event::Dose(Dose::none()),
        Event::Exertion(Exertion::Lazy),
        Event::Confirmed(true),
        Event::Found(None),
        Event::Found(Some(existing())),
        Event::Deleted,
        Event::Inserted,
        Event::StoreFailed,
    ];
    for event in events {
        assert_eq!(recorder.advance(event), Action::AskDate { default: date(2024, 3, 9) });
        assert_eq!(recorder, before);
    }
    let mut recorder = past_lookup();
    let before = recorder;
    assert_eq!(
        recorder.advance(Event::Date(date(2024, 1, 1))),
        Action::AskMinutesToFallAsleep { default: 0 }
    );
    assert_eq!(
        recorder.advance(Event::StoreFailed),
        Action::AskMinutesToFallAsleep { default: 0 }
    );
    assert_eq!(recorder, before);
}

#[test]
fn a_default_time_in_another_form_is_not_offered() {
    let mut config = settings();
    config.start_time_default = "9:30".to_string();
    config.end_time_default = "+5:30".to_string();
    let recorder = Recorder::start(&config, date(2024, 3, 10)).unwrap();
    assert_eq!(recorder.start_time_default, None);
    assert_eq!(recorder.end_time_default, None);
}

#[test]
fn a_session_whose_times_cannot_be_read_is_still_shown_and_replaced() {
    let unread = ExistingSession { id: 9, start: None, end: None };
    let mut recorder = at_lookup();
    assert_eq!(
        recorder.advance(Event::Found(Some(unread))),
        Action::ConfirmReplace { existing: unread }
    );
    assert_eq!(recorder.advance(Event::Confirmed(true)), Action::DeleteSession { id: 9 });
}

#[test]
fn a_session_on_the_same_date_is_shown_for_a_decision() {
    let mut recorder = at_lookup();
    assert_eq!(
        recorder.advance(Event::Found(Some(existing()))),
        Action::ConfirmReplace { existing: existing() }
    );
    assert_eq!(recorder.stage, Stage::Replace);
    // no answer but yes or no moves it on
    assert_eq!(
        recorder.advance(Event::Number(1)),
        Action::ConfirmReplace { existing: existing() }
    );
}

#[test]
fn agreeing_deletes_the_session_by_its_id_and_goes_on() {
    let mut recorder = at_lookup();
    recorder.advance(Event::Found(Some(existing())));
    assert_eq!(recorder.advance(Event::Confirmed(true)), Action::DeleteSession { id: 7 });
    assert_eq!(
        recorder.advance(Event::Deleted),
        Action::AskMinutesToFallAsleep { default: 0 }
    );
    assert_eq!(recorder.draft.start, Timestamp::new(date(2024, 3, 5), time(22, 15)));
}

#[test]
fn declining_cancels_for_good() {
    let mut recorder = at_lookup();
    recorder.advance(Event::Found(Some(existing())));
    assert_eq!(recorder.advance(Event::Confirmed(false)), Action::Cancel);
    assert_eq!(recorder.stage, Stage::Cancelled);
    assert!(recorder.is_finished());
    let cancelled = recorder;
    let events = [
        Event::Confirmed(true),
        Event::Deleted,
        Event::Number(0),
        Event::Exertion(Exertion::Normal),
        Event::Inserted,
        Event::Found(None),
        Event::StoreFailed,
    ];
    for event in events {
        assert_eq!(recorder.advance(event), Action::Cancel);
        assert_eq!(recorder, cancelled);
    }
}

#[test]
fn a_failure_of_the_store_ends_the_recording() {
    let mut recorder = at_lookup();
    assert_eq!(recorder.advance(Event::StoreFailed), Action::Abort);
    assert_eq!(recorder.stage, Stage::Failed);
    assert!(recorder.is_finished());
    assert_eq!(recorder.advance(Event::Found(None)), Action::Abort);

    let mut recorder = at_lookup();
    recorder.advance(Event::Found(Some(existing())));
    recorder.advance(Event::Confirmed(true));
    assert_eq!(recorder.advance(Event::StoreFailed), Action::Abort);

    let mut recorder = past_lookup();
    recorder.advance(Event::Number(0));
    recorder.advance(Event::Number(0));
    recorder.advance(Event::Number(0));
    recorder.advance(Event::Time(time(5, 30)));
    recorder.advance(Event::Number(0));
    recorder.advance(Event::Quality(Quality::Okay));
    recorder.advance(Event::Dose(Dose::none()));
    recorder.advance(Event::Dose(Dose::none()));
    recorder.advance(Event::Dose(Dose::none()));
    assert!(matches!(
        recorder.advance(Event::Exertion(Exertion::Normal)),
        Action::InsertSession { .. }
    ));
    assert_eq!(recorder.advance(Event::StoreFailed), Action::Abort);
    assert_eq!(recorder.advance(Event::Inserted), Action::Abort);
}

#[test]
fn a_recorded_night_always_has_an_efficiency() {
    // the shortest night a recording can make: 23:59 to 00:00
    let mut recorder = begin();
    recorder.advance(Event::Date(date(2024, 3, 5)));
    recorder.advance(Event::Time(time(23, 59)));
    recorder.advance(Event::Found(None));
    recorder.advance(Event::Number(0));
    recorder.advance(Event::Number(0));
    recorder.advance(Event::Number(0));
    recorder.advance(Event::Time(time(0, 0)));
    recorder.advance(Event::Number(0));
    recorder.advance(Event::Quality(Quality::Okay));
    recorder.advance(Event::Dose(Dose::none()));
    recorder.advance(Event::Dose(Dose::none()));
    recorder.advance(Event::Dose(Dose::none()));
    recorder.advance(Event::Exertion(Exertion::Normal));
    let action = recorder.advance(Event::Inserted);
    assert_eq!(
        action,
        Action::Report {
            summary: Summary {
                total_time_in_bed: 1,
                total_sleep_minutes: 1,
                sleep_efficiency: Ok(1000),
            },
        }
    );
    assert_ne!(
        action,
        Action::Report {
            summary: Summary {
                total_time_in_bed: 1,
                total_sleep_minutes: 1,
                sleep_efficiency: Err(MetricError::NoTimeInBed),
            },
        }
    );
}

#[test]
fn every_state_of_a_recording_is_well_formed() {
    let mut recorder = begin();
    assert!(recorder.is_well_formed());
    let events = [
        Event::Date(date(2024, 3, 5)),
        Event::Time(time(22, 15)),
        Event::Found(Some(existing())),
        Event::Confirmed(true),
        Event::Deleted,
        Event::Number(12),
        Event::Number(-3),
        Event::Number(2),
        Event::Number(25),
        Event::Time(time(6, 45)),
        Event::Number(8),
        Event::Quality(Quality::Perfection),
        Event::Dose(Dose::none()),
        Event::Dose(Dose::none()),
        Event::Dose(Dose::none()),
        Event::Exertion(Exertion::Lazy),
        Event::Inserted,
    ];
    for event in events {
        recorder.advance(event);
        assert!(recorder.is_well_formed());
        assert!(recorder.draft.spans_one_night());
    }
    assert_eq!(recorder.stage, Stage::Recorded);
}

#[test]
fn a_state_that_no_recording_reaches_is_told_apart() {
    let mut recorder = begin();
    recorder.stage = Stage::Replace;
    assert!(!recorder.is_well_formed());
    let mut recorder = begin();
    recorder.draft.end.date = date(2024, 3, 12);
    assert!(!recorder.is_well_formed());
    assert!(!recorder.draft.spans_one_night());
    let mut recorder = begin();
    recorder.draft.time_awake = -1;
    assert!(!recorder.is_well_formed());
    let mut recorder = begin();
    recorder.draft.start.time.second = 30;
    assert!(!recorder.is_well_formed());
    let mut recorder = begin();
    recorder.default_date = date(2024, 2, 30);
    assert!(!recorder.is_well_formed());
}

#[test]
fn the_date_of_a_session_is_the_day_its_night_began() {
    let session = SleepSession {
        start: Timestamp::new(date(2024, 3, 5), time(23, 59)),
        minutes_to_fall_asleep: 0,
        end: Timestamp::new(date(2024, 3, 6), time(0, 1)),
        awake_count: 0,
        time_awake: 0,
        time_in_bed_after_waking: 0,
        quality: Quality::Okay,
        melatonin: Dose::from_micrograms(300),
        benadryl: Dose::none(),
        edible: Dose::none(),
        exertion: Exertion::Normal,
    };
    assert_eq!(session.session_date(), date(2024, 3, 5));
    assert_eq!(session.melatonin.micrograms, 300);
    assert_eq!(Dose::none().micrograms, 0);
}
