//! The table of recorded sessions, held in memory.
//!
//! The table keeps its rows in the order of their ids. It does not insist on
//! one session per date: that rule belongs to the recording workflow, and a
//! lookup must cope with a table in which it was broken.

use crate::calendar::Date;
use crate::session::ExistingSession;
use crate::session::SleepSession;
use vstd::prelude::*;

verus! {

/// A session as the table holds it, under the id the table gave it.
#[derive(Clone, Copy, Debug, PartialEq, Eq, Structural)]
pub struct StoredSession {
    pub id: i64,
    pub session: SleepSession,
}

/// Why the table did not take a session.
#[derive(Clone, Copy, Debug, PartialEq, Eq, Structural)]
pub enum StoreError {
    /// No id is left to give.
    OutOfIds,
}

/// Whether the ids rise from each row to the next, so that no two rows
/// share one.
pub open spec fn ids_ascend(rows: Seq<StoredSession>) -> bool {
    forall|i: int, j: int| 0 <= i < j < rows.len() ==> rows[i].id < rows[j].id
}

/// Whether the night of `row` began on `date`.
pub open spec fn falls_on(row: StoredSession, date: Date) -> bool {
    row.session.start.date == date
}

/// What a lookup tells of `row`.
pub open spec fn told_of(row: StoredSession) -> ExistingSession {
    ExistingSession { id: row.id, start: Some(row.session.start), end: Some(row.session.end) }
}

/// Whether `rows[i]` is the first row whose night began on `date`.
pub open spec fn is_first_on(rows: Seq<StoredSession>, date: Date, i: int) -> bool {
    &&& 0 <= i < rows.len()
    &&& falls_on(rows[i], date)
    &&& forall|j: int| 0 <= j < i ==> !falls_on(#[trigger] rows[j], date)
}

/// The session that a lookup for `date` finds: the first row whose night
/// began on that date, if there is one.
pub open spec fn lookup(rows: Seq<StoredSession>, date: Date) -> Option<ExistingSession> {
    if exists|i: int| is_first_on(rows, date, i) {
        Some(told_of(rows[choose|i: int| is_first_on(rows, date, i)]))
    } else {
        None
    }
}

/// Whether `rows[i]` is the row with the id `id`.
pub open spec fn is_row_of(rows: Seq<StoredSession>, id: i64, i: int) -> bool {
    0 <= i < rows.len() && rows[i].id == id
}

/// The rows that are left when the row with the id `id` is deleted.
pub open spec fn without(rows: Seq<StoredSession>, id: i64) -> Seq<StoredSession> {
    if exists|i: int| is_row_of(rows, id, i) {
        rows.remove(choose|i: int| is_row_of(rows, id, i))
    } else {
        rows
    }
}

/// The id that the next session gets: one more than the highest id in the
/// table, and 1 in an empty table.
pub open spec fn fresh_id(rows: Seq<StoredSession>) -> int {
    if rows.len() == 0 {
        1
    } else {
        rows.last().id + 1
    }
}

/// The rows after `session` has been inserted.
pub open spec fn with_session(rows: Seq<StoredSession>, session: SleepSession) -> Seq<
    StoredSession,
> {
    rows.push(StoredSession { id: fresh_id(rows) as i64, session })
}

/// Whether `rows` stand latest night first: each row began later than all
/// that follow it, or at the same moment as one of them and then has the
/// lower id.
pub open spec fn latest_first(rows: Seq<StoredSession>) -> bool {
    forall|i: int, j: int|
        0 <= i < j < rows.len() ==> rows[j].session.start.precedes(rows[i].session.start) || (
        rows[i].session.start == rows[j].session.start && rows[i].id < rows[j].id)
}

/// The table of recorded sessions.
pub struct SessionStore {
    rows: Vec<StoredSession>,
}

impl View for SessionStore {
    type V = Seq<StoredSession>;

    closed spec fn view(&self) -> Seq<StoredSession> {
        self.rows@
    }
}

impl SessionStore {
    /// Whether the table is in order: the ids rise from each row to the
    /// next. Every table that this module hands out is.
    pub open spec fn wf(&self) -> bool {
        ids_ascend(self@)
    }

    /// An empty table.
    pub fn new() -> (store: SessionStore)
        ensures
            store@ == Seq::<StoredSession>::empty(),
            store.wf(),
    {
        SessionStore { rows: Vec::new() }
    }

    /// The number of sessions in the table.
    pub fn len(&self) -> (len: usize)
        ensures
            len == self@.len(),
    {
        self.rows.len()
    }

    /// The rows of the table, in the order of their ids.
    pub fn rows(&self) -> (rows: &Vec<StoredSession>)
        ensures
            rows@ == self@,
    {
        &self.rows
    }

    /// All sessions, the latest night first. Sessions that began at the
    /// same moment come in the order of their ids.
    pub fn fetch_all_sessions_ordered_by_start_desc(&self) -> (sorted: Vec<StoredSession>)
        requires
            self.wf(),
        ensures
            sorted@.to_multiset() == self@.to_multiset(),
            sorted@.len() == self@.len(),
            latest_first(sorted@),
    {
        let mut sorted: Vec<StoredSession> = Vec::new();
        let mut k: usize = 0;
        assert(self.rows@.take(0) =~= Seq::<StoredSession>::empty());
        while k < self.rows.len()
            invariant
                k <= self.rows@.len(),
                ids_ascend(self.rows@),
                sorted@.len() == k,
                sorted@.to_multiset() == self.rows@.take(k as int).to_multiset(),
                latest_first(sorted@),
                forall|i: int|
                    0 <= i < sorted@.len() && k < self.rows@.len() ==> (#[trigger] sorted@[i]).id
                        < self.rows@[k as int].id,
            decreases self.rows@.len() - k,
        {
            let row = self.rows[k];
            let mut at: usize = 0;
            while at < sorted.len() && !sorted[at].session.start.is_before(&row.session.start)
                invariant
                    at <= sorted@.len(),
                    forall|i: int|
                        0 <= i < at ==> !(#[trigger] sorted@[i]).session.start.precedes(
                            row.session.start,
                        ),
                decreases sorted@.len() - at,
            {
                at += 1;
            }
            let ghost before = sorted@;
            sorted.insert(at, row);
            proof {
                lemma_insert_to_multiset(before, at as int, row);
                assert(self.rows@.take(k as int + 1) =~= self.rows@.take(k as int).push(row));
                vstd::seq_lib::to_multiset_build(self.rows@.take(k as int), row);
                assert forall|i: int, j: int| 0 <= i < j < sorted@.len() implies sorted@[j]
                    .session.start.precedes(sorted@[i].session.start) || (sorted@[i].session.start
                    == sorted@[j].session.start && sorted@[i].id < sorted@[j].id) by {
                    let i0 = if i < at { i } else { i - 1 };
                    let j0 = if j < at { j } else { j - 1 };
                    if i == at {
                        assert(sorted@[j] == before[j0]);
                        if j0 > at {
                            assert(before[j0].session.start.precedes(before[at as int].session.start)
                                || before[at as int].session.start == before[j0].session.start);
                        }
                    } else if j == at {
                        assert(sorted@[i] == before[i0]);
                        assert(!before[i0].session.start.precedes(row.session.start));
                    } else {
                        assert(sorted@[i] == before[i0]);
                        assert(sorted@[j] == before[j0]);
                    }
                }
                assert forall|i: int|
                    0 <= i < sorted@.len() && k + 1 < self.rows@.len() implies (
                #[trigger] sorted@[i]).id < self.rows@[k as int + 1].id by {
                    if i == at {
                    } else {
                        let i0 = if i < at { i } else { i - 1 };
                        assert(sorted@[i] == before[i0]);
                    }
                }
            }
            k += 1;
        }
        assert(self.rows@.take(k as int) =~= self.rows@);
        sorted
    }

    /// Looks for a session whose night began on `date`. Where several do,
    /// the one with the lowest id is returned.
    pub fn find_session_on_date(&self, date: Date) -> (found: Option<ExistingSession>)
        requires
            self.wf(),
        ensures
            found == lookup(self@, date),
            found is None <==> forall|i: int|
                0 <= i < self@.len() ==> !falls_on(#[trigger] self@[i], date),
            found matches Some(existing) ==> exists|i: int|
                0 <= i < self@.len() && existing == told_of(#[trigger] self@[i]) && falls_on(
                    self@[i],
                    date,
                ) && forall|j: int|
                    0 <= j < self@.len() && falls_on(#[trigger] self@[j], date) ==> self@[i].id
                        <= self@[j].id,
    {
        let mut i: usize = 0;
        while i < self.rows.len()
            invariant
                i <= self.rows@.len(),
                ids_ascend(self.rows@),
                forall|j: int| 0 <= j < i ==> !falls_on(#[trigger] self.rows@[j], date),
            decreases self.rows@.len() - i,
        {
            let row = self.rows[i];
            if row.session.start.date == date {
                proof {
                    lemma_first_is_unique(self.rows@, date, i as int);
                }
                return Some(
                    ExistingSession { id: row.id, start: Some(row.session.start), end: Some(row.session.end) },
                );
            }
            i += 1;
        }
        proof {
            assert forall|k: int| !is_first_on(self.rows@, date, k) by {
                if is_first_on(self.rows@, date, k) {
                    assert(!falls_on(self.rows@[k], date));
                }
            }
        }
        None
    }

    /// Deletes the session with the id `id`, and says whether there was
    /// one. Every other row stays as it is.
    pub fn delete_session(&mut self, id: i64) -> (deleted: bool)
        requires
            old(self).wf(),
        ensures
            final(self)@ == without(old(self)@, id),
            deleted <==> exists|i: int| is_row_of(old(self)@, id, i),
            final(self).wf(),
    {
        let mut i: usize = 0;
        while i < self.rows.len()
            invariant
                i <= self.rows@.len(),
                self.rows@ == old(self).rows@,
                ids_ascend(self.rows@),
                forall|j: int| 0 <= j < i ==> self.rows@[j].id != id,
            decreases self.rows@.len() - i,
        {
            if self.rows[i].id == id {
                proof {
                    lemma_row_is_unique(self.rows@, id, i as int);
                    lemma_remove_keeps_order(self.rows@, i as int);
                }
                self.rows.remove(i);
                return true;
            }
            i += 1;
        }
        proof {
            assert forall|k: int| !is_row_of(self.rows@, id, k) by {
                if is_row_of(self.rows@, id, k) {
                    assert(self.rows@[k].id != id);
                }
            }
        }
        false
    }

    /// Inserts `session` under a fresh id and returns that id. The table
    /// takes any session, whatever its times; it refuses only when the ids
    /// have run out, and is then left as it was.
    pub fn insert_session(&mut self, session: SleepSession) -> (result: Result<i64, StoreError>)
        requires
            old(self).wf(),
        ensures
            fresh_id(old(self)@) <= i64::MAX ==> result == Ok::<i64, StoreError>(
                fresh_id(old(self)@) as i64,
            ) && final(self)@ == with_session(old(self)@, session),
            fresh_id(old(self)@) > i64::MAX ==> result == Err::<i64, StoreError>(
                StoreError::OutOfIds,
            ) && final(self)@ == old(self)@,
            final(self).wf(),
    {
        let n = self.rows.len();
        let id: i64 = if n == 0 {
            1
        } else {
            let last: i64 = self.rows[n - 1].id;
            if last == i64::MAX {
                return Err(StoreError::OutOfIds);
            }
            last + 1
        };
        self.rows.push(StoredSession { id, session });
        Ok(id)
    }
}

proof fn lemma_insert_to_multiset(rows: Seq<StoredSession>, at: int, row: StoredSession)
    requires
        0 <= at <= rows.len(),
    ensures
        rows.insert(at, row).to_multiset() == rows.to_multiset().insert(row),
{
    let longer = rows.insert(at, row);
    assert(longer.remove(at) =~= rows);
    vstd::seq_lib::to_multiset_remove(longer, at);
    assert(longer[at] == row);
    longer.to_multiset_ensures();
    assert(longer.contains(row));
    assert(longer.to_multiset().count(row) > 0);
    assert(longer.to_multiset() =~= longer.to_multiset().remove(row).insert(row));
}

proof fn lemma_first_is_unique(rows: Seq<StoredSession>, date: Date, i: int)
    requires
        is_first_on(rows, date, i),
        ids_ascend(rows),
    ensures
        exists|k: int| is_first_on(rows, date, k),
        (choose|k: int| is_first_on(rows, date, k)) == i,
        forall|j: int| 0 <= j < rows.len() && falls_on(#[trigger] rows[j], date) ==> rows[i].id <= rows[j].id,
{
    let c = choose|k: int| is_first_on(rows, date, k);
    assert(is_first_on(rows, date, c));
    if c < i {
        assert(!falls_on(rows[c], date));
    } else if i < c {
        assert(!falls_on(rows[i], date));
    }
    assert forall|j: int| 0 <= j < rows.len() && falls_on(#[trigger] rows[j], date) implies rows[i].id
        <= rows[j].id by {
        if j < i {
            assert(!falls_on(rows[j], date));
        }
    }
}

proof fn lemma_row_is_unique(rows: Seq<StoredSession>, id: i64, i: int)
    requires
        is_row_of(rows, id, i),
        ids_ascend(rows),
    ensures
        exists|k: int| is_row_of(rows, id, k),
        (choose|k: int| is_row_of(rows, id, k)) == i,
{
    let c = choose|k: int| is_row_of(rows, id, k);
    assert(is_row_of(rows, id, c));
}

proof fn lemma_remove_keeps_order(rows: Seq<StoredSession>, i: int)
    requires
        0 <= i < rows.len(),
        ids_ascend(rows),
    ensures
        ids_ascend(rows.remove(i)),
{
    let rest = rows.remove(i);
    assert forall|a: int, b: int| 0 <= a < b < rest.len() implies rest[a].id < rest[b].id by {
        let a0 = if a < i { a } else { a + 1 };
        let b0 = if b < i { b } else { b + 1 };
        assert(rest[a] == rows[a0]);
        assert(rest[b] == rows[b0]);
    }
}

} // verus!
