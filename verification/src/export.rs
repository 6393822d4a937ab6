//! The sheet that an export of the sleep log fills: one row of column
//! titles, then one row for each session.

use vstd::prelude::*;
use vstd::string::StringExecFns;

verus! {

/// The titles of the thirteen columns, in the order of the columns.
pub open spec fn header_titles() -> Seq<Seq<char>> {
    seq![
        "ID"@,
        "Start"@,
        "Minutes to Fall Asleep"@,
        "End"@,
        "Total Hours"@,
        "Awake Count"@,
        "Time Awake (min)"@,
        "Time in Bed After Waking (min)"@,
        "Quality"@,
        "Melatonin (mg)"@,
        "Benadryl (mg)"@,
        "Edible (mg)"@,
        "Exertion"@,
    ]
}

/// The cells of the sheet: the titles, then `rows` in their order.
pub open spec fn sheet(rows: Seq<Seq<Seq<char>>>) -> Seq<Seq<Seq<char>>> {
    seq![header_titles()] + rows
}

/// What stands in the cell of a value that may be missing: the value, or
/// nothing.
pub open spec fn cell_text(value: Option<Seq<char>>) -> Seq<char> {
    match value {
        Some(text) => text,
        None => Seq::<char>::empty(),
    }
}

/// One session as an export reads it from the store, every value written as
/// text. A value that the store does not hold is `None`.
#[derive(Clone, Debug)]
pub struct ExportedSession {
    pub id: String,
    pub start: Option<String>,
    pub minutes_to_fall_asleep: Option<String>,
    pub end: Option<String>,
    pub total_time_hours: Option<String>,
    pub awake_count: Option<String>,
    pub time_awake: Option<String>,
    pub time_in_bed_after_waking: Option<String>,
    pub quality: Option<String>,
    pub melatonin: Option<String>,
    pub benadryl: Option<String>,
    pub edible: Option<String>,
    pub exertion: Option<String>,
}

impl ExportedSession {
    /// The cells of the session's row, in the order of the columns: each
    /// value under its title, a missing value as an empty cell.
    pub open spec fn cells(self) -> Seq<Seq<char>> {
        seq![
            self.id@,
            cell_text(self.start.deep_view()),
            cell_text(self.minutes_to_fall_asleep.deep_view()),
            cell_text(self.end.deep_view()),
            cell_text(self.total_time_hours.deep_view()),
            cell_text(self.awake_count.deep_view()),
            cell_text(self.time_awake.deep_view()),
            cell_text(self.time_in_bed_after_waking.deep_view()),
            cell_text(self.quality.deep_view()),
            cell_text(self.melatonin.deep_view()),
            cell_text(self.benadryl.deep_view()),
            cell_text(self.edible.deep_view()),
            cell_text(self.exertion.deep_view()),
        ]
    }
}

/// The cells that the sheet occupies.
pub fn sheet_range() -> (range: String)
    ensures
        range@ == "Sheet1!A:M"@,
{
    String::from_str("Sheet1!A:M")
}

/// The row of column titles.
pub fn header_row() -> (row: Vec<String>)
    ensures
        row.deep_view() == header_titles(),
{
    let mut row: Vec<String> = Vec::new();
    row.push(String::from_str("ID"));
    row.push(String::from_str("Start"));
    row.push(String::from_str("Minutes to Fall Asleep"));
    row.push(String::from_str("End"));
    row.push(String::from_str("Total Hours"));
    row.push(String::from_str("Awake Count"));
    row.push(String::from_str("Time Awake (min)"));
    row.push(String::from_str("Time in Bed After Waking (min)"));
    row.push(String::from_str("Quality"));
    row.push(String::from_str("Melatonin (mg)"));
    row.push(String::from_str("Benadryl (mg)"));
    row.push(String::from_str("Edible (mg)"));
    row.push(String::from_str("Exertion"));
    assert(row.deep_view() =~= header_titles());
    row
}

/// The text for the cell of a value that may be missing.
pub fn cell(value: Option<String>) -> (text: String)
    ensures
        text@ == cell_text(value.deep_view()),
{
    match value {
        Some(text) => text,
        None => String::new(),
    }
}

/// The row of one session: its values in the order of the columns, a
/// missing value as an empty cell.
pub fn session_row(session: ExportedSession) -> (row: Vec<String>)
    ensures
        row.deep_view() == session.cells(),
        row@.len() == header_titles().len(),
{
    let mut row: Vec<String> = Vec::new();
    row.push(session.id);
    row.push(cell(session.start));
    row.push(cell(session.minutes_to_fall_asleep));
    row.push(cell(session.end));
    row.push(cell(session.total_time_hours));
    row.push(cell(session.awake_count));
    row.push(cell(session.time_awake));
    row.push(cell(session.time_in_bed_after_waking));
    row.push(cell(session.quality));
    row.push(cell(session.melatonin));
    row.push(cell(session.benadryl));
    row.push(cell(session.edible));
    row.push(cell(session.exertion));
    assert(row.deep_view() =~= session.cells());
    row
}

/// The cells of the sheet for the session rows `rows`: the row of titles
/// first, then the rows as they come.
pub fn sheet_values(rows: Vec<Vec<String>>) -> (values: Vec<Vec<String>>)
    ensures
        values.deep_view() == sheet(rows.deep_view()),
{
    let mut rows = rows;
    let ghost given = rows.deep_view();
    let ghost given_rows = rows@;
    let mut values: Vec<Vec<String>> = Vec::new();
    values.push(header_row());
    values.append(&mut rows);
    proof {
        let all = values.deep_view();
        let expected = sheet(given);
        assert(all.len() == expected.len());
        assert forall|i: int| 0 <= i < all.len() implies all[i] == expected[i] by {
            if i > 0 {
                assert(values@[i] == given_rows[i - 1]);
                assert(given[i - 1] == given_rows[i - 1].deep_view());
            }
        }
        assert(all =~= expected);
    }
    values
}

} // verus!
