//! A recording together with the table it writes to: what the table answers
//! to each request of the recording, and what a whole run does to the table.

use crate::recorder::Action;
use crate::recorder::Event;
use crate::recorder::Recorder;
use crate::recorder::Stage;
use crate::session::SleepSession;
use crate::store::falls_on;
use crate::store::fresh_id;
use crate::store::ids_ascend;
use crate::store::is_first_on;
use crate::store::is_row_of;
use crate::store::lookup;
use crate::store::with_session;
use crate::store::without;
use crate::store::SessionStore;
use crate::store::StoredSession;
use vstd::prelude::*;

verus! {

/// What the table does on `action`: the rows it holds afterwards, and its
/// answer. A question to the user is none of its business: it keeps its rows
/// and gives no answer.
pub open spec fn response(rows: Seq<StoredSession>, action: Action) -> (
    Seq<StoredSession>,
    Option<Event>,
) {
    match action {
        Action::FindSessionOnDate { date } => (rows, Some(Event::Found(lookup(rows, date)))),
        Action::DeleteSession { id } => (without(rows, id), Some(Event::Deleted)),
        Action::InsertSession { session } => if fresh_id(rows) <= i64::MAX {
            (with_session(rows, session), Some(Event::Inserted))
        } else {
            (rows, Some(Event::StoreFailed))
        },
        _ => (rows, None),
    }
}

/// The recording and the table once the table has answered the request that
/// is pending, if one is.
pub open spec fn settled(recorder: Recorder, rows: Seq<StoredSession>) -> (
    Recorder,
    Seq<StoredSession>,
) {
    match response(rows, recorder.action()).1 {
        Some(event) => (recorder.next(event), response(rows, recorder.action()).0),
        None => (recorder, rows),
    }
}

/// The recording and the table after the user's answer `event`.
pub open spec fn answered(recorder: Recorder, rows: Seq<StoredSession>, event: Event) -> (
    Recorder,
    Seq<StoredSession>,
) {
    settled(recorder.next(event), rows)
}

/// The recording and the table after the user's answers `events`, one after
/// the other.
pub open spec fn replayed(recorder: Recorder, rows: Seq<StoredSession>, events: Seq<Event>) -> (
    Recorder,
    Seq<StoredSession>,
)
    decreases events.len(),
{
    if events.len() == 0 {
        (recorder, rows)
    } else {
        let before = replayed(recorder, rows, events.drop_last());
        answered(before.0, before.1, events.last())
    }
}

/// Lets the table do what `action` asks of it, and returns its answer.
pub fn respond(store: &mut SessionStore, action: &Action) -> (event: Option<Event>)
    requires
        old(store).wf(),
    ensures
        final(store).wf(),
        (final(store)@, event) == response(old(store)@, *action),
{
    match action {
        Action::FindSessionOnDate { date } => Some(Event::Found(store.find_session_on_date(*date))),
        Action::DeleteSession { id } => {
            store.delete_session(*id);
            Some(Event::Deleted)
        },
        Action::InsertSession { session } => match store.insert_session(*session) {
            Ok(_) => Some(Event::Inserted),
            Err(_) => Some(Event::StoreFailed),
        },
        _ => None,
    }
}

/// Hands the user's answer `event` to the recording, lets the table answer
/// the request that follows from it, if one does, and returns what is to be
/// done next.
pub fn answer(recorder: &mut Recorder, store: &mut SessionStore, event: Event) -> (action: Action)
    requires
        old(recorder).wf(),
        old(store).wf(),
    ensures
        final(recorder).wf(),
        final(store).wf(),
        (*final(recorder), final(store)@) == answered(*old(recorder), old(store)@, event),
        action == final(recorder).action(),
{
    let request = recorder.advance(event);
    match respond(store, &request) {
        Some(reply) => recorder.advance(reply),
        None => request,
    }
}

/// Whether a recording can pass from the stage `from` straight to the stage
/// `to`: to the next question in the fixed order, around the replacement of
/// a session where there is none to replace, or to one of its ends.
pub open spec fn leads_to(from: Stage, to: Stage) -> bool {
    match from {
        Stage::SessionDate => to == Stage::StartTime,
        Stage::StartTime => to == Stage::Lookup,
        Stage::Lookup => to == Stage::Replace || to == Stage::MinutesToFallAsleep || to
            == Stage::Failed,
        Stage::Replace => to == Stage::Delete || to == Stage::Cancelled,
        Stage::Delete => to == Stage::MinutesToFallAsleep || to == Stage::Failed,
        Stage::MinutesToFallAsleep => to == Stage::AwakeCount,
        Stage::AwakeCount => to == Stage::TimeAwake,
        Stage::TimeAwake => to == Stage::EndTime,
        Stage::EndTime => to == Stage::TimeInBedAfterWaking,
        Stage::TimeInBedAfterWaking => to == Stage::Quality,
        Stage::Quality => to == Stage::Melatonin,
        Stage::Melatonin => to == Stage::Benadryl,
        Stage::Benadryl => to == Stage::Edible,
        Stage::Edible => to == Stage::Exertion,
        Stage::Exertion => to == Stage::Insert,
        Stage::Insert => to == Stage::Recorded || to == Stage::Failed,
        Stage::Recorded => false,
        Stage::Cancelled => false,
        Stage::Failed => false,
    }
}

/// Every event leaves a recording in a state it can be in, and either at
/// the stage where it was, with nothing changed, or at a stage that follows
/// in the fixed order.
pub proof fn lemma_next_keeps_order(recorder: Recorder, event: Event)
    requires
        recorder.wf(),
    ensures
        recorder.next(event).wf(),
        recorder.next(event) == recorder || leads_to(recorder.stage, recorder.next(event).stage),
        recorder.next(event).default_date == recorder.default_date,
        recorder.next(event).start_time_default == recorder.start_time_default,
        recorder.next(event).end_time_default == recorder.end_time_default,
{
}

/// A recording that is over stays as it is, whatever comes.
pub proof fn lemma_over_is_final(recorder: Recorder, event: Event)
    requires
        recorder.is_over(),
    ensures
        recorder.next(event) == recorder,
{
}

/// The table changes on two requests only, the deletion and the insertion,
/// and a recording makes them at two stages only.
pub proof fn lemma_requests_that_change_rows(recorder: Recorder, rows: Seq<StoredSession>)
    ensures
        response(rows, recorder.action()).0 != rows ==> recorder.stage == Stage::Delete
            || recorder.stage == Stage::Insert,
        settled(recorder, rows).1 != rows ==> recorder.stage == Stage::Delete || recorder.stage
            == Stage::Insert,
{
}

/// A session that has been inserted is found on its date.
pub proof fn lemma_inserted_is_found(rows: Seq<StoredSession>, session: SleepSession)
    requires
        ids_ascend(rows),
        fresh_id(rows) <= i64::MAX,
    ensures
        ids_ascend(with_session(rows, session)),
        lookup(with_session(rows, session), session.start.date) is Some,
{
    let after = with_session(rows, session);
    let date = session.start.date;
    lemma_some_row_falls_on(after, date, rows.len() as int);
}

/// Where some row falls on a date, a lookup for that date finds the first
/// row that does, and that row has the lowest id of all that do.
pub proof fn lemma_some_row_falls_on(rows: Seq<StoredSession>, date: crate::calendar::Date, k: int)
    requires
        ids_ascend(rows),
        0 <= k < rows.len(),
        falls_on(rows[k], date),
    ensures
        lookup(rows, date) is Some,
        exists|i: int|
            is_first_on(rows, date, i) && #[trigger] is_row_of(
                rows,
                lookup(rows, date).unwrap().id,
                i,
            ) && rows[i].id <= rows[k].id,
    decreases k,
{
    if forall|j: int| 0 <= j < k ==> !falls_on(#[trigger] rows[j], date) {
        assert(is_first_on(rows, date, k));
        let c = choose|i: int| is_first_on(rows, date, i);
        assert(is_first_on(rows, date, c));
        if c < k {
            assert(!falls_on(rows[c], date));
        } else if k < c {
            assert(!falls_on(rows[k], date));
        }
        assert(is_row_of(rows, lookup(rows, date).unwrap().id, k));
    } else {
        let j = choose|j: int| 0 <= j < k && falls_on(#[trigger] rows[j], date);
        lemma_some_row_falls_on(rows, date, j);
        let i = choose|i: int|
            is_first_on(rows, date, i) && #[trigger] is_row_of(
                rows,
                lookup(rows, date).unwrap().id,
                i,
            ) && rows[i].id <= rows[j].id;
        assert(is_row_of(rows, lookup(rows, date).unwrap().id, i));
    }
}

/// Deleting by id takes away the one row with that id: every row that is
/// left was there before, under another id, and every row with another id
/// is still there, in the order it had.
pub proof fn lemma_without_removes_one(rows: Seq<StoredSession>, id: i64)
    requires
        ids_ascend(rows),
    ensures
        ids_ascend(without(rows, id)),
        forall|i: int|
            0 <= i < without(rows, id).len() ==> rows.contains(#[trigger] without(rows, id)[i])
                && without(rows, id)[i].id != id,
        forall|i: int|
            0 <= i < rows.len() && rows[i].id != id ==> without(rows, id).contains(
                #[trigger] rows[i],
            ),
        (exists|i: int| is_row_of(rows, id, i)) ==> without(rows, id).len() == rows.len() - 1,
        !(exists|i: int| is_row_of(rows, id, i)) ==> without(rows, id) == rows,
{
    if exists|i: int| is_row_of(rows, id, i) {
        let k = choose|i: int| is_row_of(rows, id, i);
        let rest = rows.remove(k);
        assert forall|a: int, b: int| 0 <= a < b < rest.len() implies rest[a].id < rest[b].id by {
            let a0 = if a < k { a } else { a + 1 };
            let b0 = if b < k { b } else { b + 1 };
            assert(rest[a] == rows[a0]);
            assert(rest[b] == rows[b0]);
        }
        assert forall|i: int| 0 <= i < rest.len() implies rows.contains(#[trigger] rest[i])
            && rest[i].id != id by {
            let i0 = if i < k { i } else { i + 1 };
            assert(rest[i] == rows[i0]);
        }
        assert forall|i: int| 0 <= i < rows.len() && rows[i].id != id implies rest.contains(
            #[trigger] rows[i],
        ) by {
            let i1 = if i < k { i } else { i - 1 };
            assert(rest[i1] == rows[i]);
        }
    } else {
        assert forall|i: int| 0 <= i < rows.len() implies rows[i].id != id by {
            assert(!is_row_of(rows, id, i));
        }
    }
}

/// A second recording for a date that has a session already is stopped at
/// the lookup: the user is shown the session that is there, the one with
/// the lowest id on that date, and the table is as it was. If they agree to
/// replace it, that row and no other is deleted, every session of another
/// date is still in the table, and the questions go on. If they do not, the
/// recording is cancelled and the table is as it was.
pub proof fn lemma_second_recording_collides(
    recorder: Recorder,
    rows: Seq<StoredSession>,
    time: crate::clock::TimeOfDay,
    k: int,
)
    requires
        recorder.stage == Stage::StartTime,
        crate::recorder::is_clock_answer(time),
        ids_ascend(rows),
        0 <= k < rows.len(),
        falls_on(rows[k], recorder.draft.start.date),
    ensures
        ({
            let date = recorder.draft.start.date;
            let asked = answered(recorder, rows, Event::Time(time));
            let agreed = answered(asked.0, asked.1, Event::Confirmed(true));
            let declined = answered(asked.0, asked.1, Event::Confirmed(false));
            &&& lookup(rows, date) is Some
            &&& asked.1 == rows
            &&& asked.0.stage == Stage::Replace
            &&& asked.0.action() == (Action::ConfirmReplace {
                existing: lookup(rows, date).unwrap(),
            })
            &&& agreed.0.stage == Stage::MinutesToFallAsleep
            &&& agreed.1 == without(rows, lookup(rows, date).unwrap().id)
            &&& agreed.1.len() == rows.len() - 1
            &&& forall|i: int|
                0 <= i < rows.len() && !falls_on(rows[i], date) ==> agreed.1.contains(
                    #[trigger] rows[i],
                )
            &&& declined.0.stage == Stage::Cancelled
            &&& declined.0.action() == Action::Cancel
            &&& declined.1 == rows
        }),
{
    let date = recorder.draft.start.date;
    lemma_some_row_falls_on(rows, date, k);
    let found = lookup(rows, date).unwrap();
    lemma_without_removes_one(rows, found.id);
    let first = choose|i: int|
        is_first_on(rows, date, i) && #[trigger] is_row_of(rows, found.id, i) && rows[i].id
            <= rows[k].id;
    assert(is_row_of(rows, found.id, first));
    assert forall|i: int| 0 <= i < rows.len() && !falls_on(rows[i], date) implies without(
        rows,
        found.id,
    ).contains(#[trigger] rows[i]) by {
        if rows[i].id == found.id {
            if i < first {
                assert(rows[i].id < rows[first].id);
            } else if first < i {
                assert(rows[first].id < rows[i].id);
            }
        }
    }
    let looking = recorder.next(Event::Time(time));
    assert(looking.stage == Stage::Lookup && looking.draft.start.date == date);
    assert(looking.action() == (Action::FindSessionOnDate { date }));
    assert(response(rows, looking.action()) == (rows, Some(Event::Found(Some(found)))));
    let asking = looking.next(Event::Found(Some(found)));
    assert(asking.stage == Stage::Replace && asking.existing == Some(found));
    assert(response(rows, asking.action()).1 is None);
    assert(answered(recorder, rows, Event::Time(time)) == (asking, rows));
    let deleting = asking.next(Event::Confirmed(true));
    assert(deleting.stage == Stage::Delete && deleting.existing == Some(found));
    assert(deleting.action() == (Action::DeleteSession { id: found.id }));
    assert(response(rows, deleting.action()) == (without(rows, found.id), Some(Event::Deleted)));
    let going_on = deleting.next(Event::Deleted);
    assert(going_on.stage == Stage::MinutesToFallAsleep);
    assert(answered(asking, rows, Event::Confirmed(true)) == (going_on, without(rows, found.id)));
    let cancelled = asking.next(Event::Confirmed(false));
    assert(cancelled.stage == Stage::Cancelled);
    assert(response(rows, cancelled.action()).1 is None);
    assert(answered(asking, rows, Event::Confirmed(false)) == (cancelled, rows));
}

/// Once the user has declined to replace the session that is there, the
/// table stays exactly as it was, whatever is answered afterwards: nothing
/// is deleted and nothing inserted.
pub proof fn lemma_declined_changes_nothing(
    recorder: Recorder,
    rows: Seq<StoredSession>,
    events: Seq<Event>,
)
    requires
        recorder.stage == Stage::Replace,
    ensures
        replayed(recorder.next(Event::Confirmed(false)), rows, events).1 == rows,
        replayed(recorder.next(Event::Confirmed(false)), rows, events).0.stage == Stage::Cancelled,
    decreases events.len(),
{
    if events.len() > 0 {
        lemma_declined_changes_nothing(recorder, rows, events.drop_last());
    }
}

/// The answer to the last question puts the session into the table, once:
/// one row is added, under a fresh id, and it holds the answers with a night
/// that ends on the day after the one it began on. Nothing is written before
/// that answer.
pub proof fn lemma_last_answer_inserts_once(
    recorder: Recorder,
    rows: Seq<StoredSession>,
    exertion: crate::scale::Exertion,
)
    requires
        recorder.wf(),
        recorder.stage == Stage::Exertion,
        ids_ascend(rows),
        fresh_id(rows) <= i64::MAX,
    ensures
        ({
            let done = answered(recorder, rows, Event::Exertion(exertion));
            let session = SleepSession { exertion, ..recorder.draft };
            &&& done.0.stage == Stage::Recorded
            &&& done.0.draft == session
            &&& done.1 == rows.push(StoredSession { id: fresh_id(rows) as i64, session })
            &&& session.wf()
            &&& session.start.date.successor() == Some(session.end.date)
            &&& done.0.action() == (Action::Report { summary: crate::metrics::summary(session) })
            &&& crate::metrics::efficiency(session) is Ok
        }),
{
    crate::recorder::lemma_overnight_is_well_formed(
        SleepSession { exertion, ..recorder.draft },
    );
}

} // verus!
