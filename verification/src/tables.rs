//! The tables that are synced, their columns, and the statements that the
//! merger runs on them.

use crate::text::{chars_of, str_eq};
use vstd::prelude::*;

verus! {

/// The views of a list of names.
pub open spec fn names_of(names: Seq<&str>) -> Seq<Seq<char>> {
    Seq::new(names.len(), |i: int| names[i]@)
}

/// The texts of a list, with a separator between each two.
pub open spec fn joined(parts: Seq<Seq<char>>, separator: Seq<char>) -> Seq<char>
    decreases parts.len(),
{
    if parts.len() == 0 {
        Seq::empty()
    } else if parts.len() == 1 {
        parts[0]
    } else {
        joined(parts.drop_last(), separator) + separator + parts.last()
    }
}

/// Joins names with a separator.
pub fn join_names(names: &Vec<&str>, separator: &str) -> (r: String)
    ensures
        r@ == joined(names_of(names@), separator@),
{
    let ghost all = names_of(names@);
    let mut r = String::new();
    let mut i: usize = 0;
    assert(all.take(0) =~= Seq::<Seq<char>>::empty());
    while i < names.len()
        invariant
            i <= names.len(),
            all == names_of(names@),
            r@ == joined(all.take(i as int), separator@),
        decreases names.len() - i,
    {
        proof {
            let upto = all.take(i + 1);
            assert(upto.drop_last() =~= all.take(i as int));
            assert(upto.last() == names[i as int]@);
            if i == 0 {
                assert(r@ + names[i as int]@ =~= names[i as int]@);
            }
        }
        if i > 0 {
            r.append(separator);
        }
        r.append(names[i]);
        i += 1;
    }
    assert(all.take(names.len() as int) =~= all);
    r
}

/// The columns of the table of one-time tasks.
pub open spec fn task_column_names() -> Seq<Seq<char>> {
    seq![
        "id"@,
        "description"@,
        "type"@,
        "status"@,
        "created_at"@,
        "completed_at"@,
        "reminder_time"@,
        "updated_at"@,
        "deleted_at"@,
    ]
}

/// The columns of the table of one-time tasks.
pub fn task_columns() -> (r: Vec<&'static str>)
    ensures
        names_of(r@) == task_column_names(),
{
    let r = vec![
        "id",
        "description",
        "type",
        "status",
        "created_at",
        "completed_at",
        "reminder_time",
        "updated_at",
        "deleted_at",
    ];
    assert(names_of(r@) =~= task_column_names());
    r
}

/// The columns of the table of recurring tasks.
pub open spec fn recurring_column_names() -> Seq<Seq<char>> {
    seq![
        "id"@,
        "description"@,
        "type"@,
        "status"@,
        "created_at"@,
        "completed_at"@,
        "interval_minutes"@,
        "last_triggered"@,
        "next_trigger"@,
        "is_paused"@,
        "start_time"@,
        "end_time"@,
        "repeat_mode"@,
        "schedule_time"@,
        "schedule_weekday"@,
        "schedule_day"@,
        "cron_expression"@,
        "updated_at"@,
        "deleted_at"@,
    ]
}

/// The columns of the table of recurring tasks.
pub fn recurring_columns() -> (r: Vec<&'static str>)
    ensures
        names_of(r@) == recurring_column_names(),
{
    let r = vec![
        "id",
        "description",
        "type",
        "status",
        "created_at",
        "completed_at",
        "interval_minutes",
        "last_triggered",
        "next_trigger",
        "is_paused",
        "start_time",
        "end_time",
        "repeat_mode",
        "schedule_time",
        "schedule_weekday",
        "schedule_day",
        "cron_expression",
        "updated_at",
        "deleted_at",
    ];
    assert(names_of(r@) =~= recurring_column_names());
    r
}

/// The columns of the table of reminder records.
pub open spec fn record_column_names() -> Seq<Seq<char>> {
    seq![
        "id"@,
        "reminder_id"@,
        "description"@,
        "type"@,
        "trigger_time"@,
        "close_time"@,
        "action"@,
        "updated_at"@,
        "deleted_at"@,
    ]
}

/// The columns of the table of reminder records.
pub fn record_columns() -> (r: Vec<&'static str>)
    ensures
        names_of(r@) == record_column_names(),
{
    let r = vec![
        "id",
        "reminder_id",
        "description",
        "type",
        "trigger_time",
        "close_time",
        "action",
        "updated_at",
        "deleted_at",
    ];
    assert(names_of(r@) =~= record_column_names());
    r
}

/// A table that is synced: its name, its columns, and the column that
/// dates a row which has neither an update nor a deletion time.
pub struct TableSpec {
    pub name: &'static str,
    pub columns: Vec<&'static str>,
    pub fallback_time_column: &'static str,
}

/// The mathematical value of a [`TableSpec`].
pub struct TableSpecView {
    pub name: Seq<char>,
    pub columns: Seq<Seq<char>>,
    pub fallback_time_column: Seq<char>,
}

impl View for TableSpec {
    type V = TableSpecView;

    open spec fn view(&self) -> TableSpecView {
        TableSpecView {
            name: self.name@,
            columns: names_of(self.columns@),
            fallback_time_column: self.fallback_time_column@,
        }
    }
}

/// The three tables that are synced, in the order in which they are merged:
/// the one-time tasks and the recurring tasks, dated by their creation, and
/// the reminder records, dated by their trigger time.
pub fn synced_tables() -> (r: Vec<TableSpec>)
    ensures
        r.len() == 3,
        r[0]@ == (TableSpecView {
            name: "tasks"@,
            columns: task_column_names(),
            fallback_time_column: "created_at"@,
        }),
        r[1]@ == (TableSpecView {
            name: "recurring_tasks"@,
            columns: recurring_column_names(),
            fallback_time_column: "created_at"@,
        }),
        r[2]@ == (TableSpecView {
            name: "reminder_records"@,
            columns: record_column_names(),
            fallback_time_column: "trigger_time"@,
        }),
{
    let mut r: Vec<TableSpec> = Vec::new();
    r.push(TableSpec { name: "tasks", columns: task_columns(), fallback_time_column: "created_at" });
    r.push(
        TableSpec {
            name: "recurring_tasks",
            columns: recurring_columns(),
            fallback_time_column: "created_at",
        },
    );
    r.push(
        TableSpec {
            name: "reminder_records",
            columns: record_columns(),
            fallback_time_column: "trigger_time",
        },
    );
    r
}

/// The statement that reads all rows of a table.
pub fn select_statement(table: &str, columns: &Vec<&str>) -> (r: String)
    ensures
        r@ == "SELECT "@ + joined(names_of(columns@), ", "@) + " FROM "@ + table@,
{
    let mut r = String::from_str("SELECT ");
    r.append(join_names(columns, ", ").as_str());
    r.append(" FROM ");
    r.append(table);
    r
}

/// A list of as many question marks as there are columns.
pub open spec fn placeholders(n: nat) -> Seq<Seq<char>> {
    Seq::new(n, |i: int| "?"@)
}

/// The statement that writes a row into a table, in place of the row with
/// the same key.
pub fn replace_statement(table: &str, columns: &Vec<&str>) -> (r: String)
    ensures
        r@ == "REPLACE INTO "@ + table@ + " ("@ + joined(names_of(columns@), ", "@)
            + ") VALUES ("@ + joined(placeholders(columns@.len()), ", "@) + ")"@,
{
    let mut marks: Vec<&str> = Vec::new();
    let mut i: usize = 0;
    while i < columns.len()
        invariant
            i <= columns.len(),
            marks.len() == i,
            forall|k: int| 0 <= k < i ==> marks[k]@ == "?"@,
        decreases columns.len() - i,
    {
        marks.push("?");
        i += 1;
    }
    assert(names_of(marks@) =~= placeholders(columns@.len()));
    let mut r = String::from_str("REPLACE INTO ");
    r.append(table);
    r.append(" (");
    r.append(join_names(columns, ", ").as_str());
    r.append(") VALUES (");
    r.append(join_names(&marks, ", ").as_str());
    r.append(")");
    r
}

/// The statement that lists the columns of a table.
pub fn table_info_statement(table: &str) -> (r: String)
    ensures
        r@ == "PRAGMA table_info("@ + table@ + ")"@,
{
    let mut r = String::from_str("PRAGMA table_info(");
    r.append(table);
    r.append(")");
    r
}

/// The statement that adds a column to a table.
pub fn add_column_statement(table: &str, column: &str, column_type: &str) -> (r: String)
    ensures
        r@ == "ALTER TABLE "@ + table@ + " ADD COLUMN "@ + column@ + " "@ + column_type@,
{
    let mut r = String::from_str("ALTER TABLE ");
    r.append(table);
    r.append(" ADD COLUMN ");
    r.append(column);
    r.append(" ");
    r.append(column_type);
    r
}

/// A character with an ASCII capital letter turned into its small letter.
pub open spec fn ascii_lower(c: char) -> char {
    if 'A' <= c <= 'Z' {
        ((c as u8 + 32) as u8) as char
    } else {
        c
    }
}

/// Whether two texts are the same but for the case of their ASCII letters.
pub open spec fn same_ignoring_ascii_case(a: Seq<char>, b: Seq<char>) -> bool {
    a.len() == b.len() && forall|i: int|
        0 <= i < a.len() ==> ascii_lower(#[trigger] a[i]) == ascii_lower(b[i])
}

/// A character with an ASCII capital letter turned into its small letter.
fn to_ascii_lower(c: char) -> (r: char)
    ensures
        r == ascii_lower(c),
{
    if 'A' <= c && c <= 'Z' {
        ((c as u8 + 32) as u8) as char
    } else {
        c
    }
}

/// Whether two texts are the same but for the case of their ASCII letters.
pub fn eq_ignore_ascii_case(a: &str, b: &str) -> (r: bool)
    ensures
        r == same_ignoring_ascii_case(a@, b@),
{
    let x = chars_of(a);
    let y = chars_of(b);
    if x.len() != y.len() {
        return false;
    }
    let mut i: usize = 0;
    while i < x.len()
        invariant
            i <= x.len(),
            x.len() == y.len(),
            x@ == a@,
            y@ == b@,
            forall|k: int| 0 <= k < i ==> ascii_lower(#[trigger] x@[k]) == ascii_lower(y@[k]),
        decreases x.len() - i,
    {
        if to_ascii_lower(x[i]) != to_ascii_lower(y[i]) {
            assert(ascii_lower(a@[i as int]) != ascii_lower(b@[i as int]));
            return false;
        }
        i += 1;
    }
    true
}

/// Whether a table has a column, by the names of its columns; the case of
/// ASCII letters does not count.
pub fn has_column(existing: &Vec<String>, column: &str) -> (r: bool)
    ensures
        r == exists|i: int|
            0 <= i < existing.len() && same_ignoring_ascii_case(
                (#[trigger] existing[i])@,
                column@,
            ),
{
    let mut i: usize = 0;
    while i < existing.len()
        invariant
            i <= existing.len(),
            forall|k: int|
                0 <= k < i ==> !same_ignoring_ascii_case((#[trigger] existing[k])@, column@),
        decreases existing.len() - i,
    {
        if eq_ignore_ascii_case(existing[i].as_str(), column) {
            return true;
        }
        i += 1;
    }
    false
}

/// A column that a synced table must have.
#[derive(Clone, Copy, Debug, PartialEq, Eq)]
pub struct ColumnSpec {
    pub table: &'static str,
    pub column: &'static str,
    pub column_type: &'static str,
}

impl View for ColumnSpec {
    type V = (Seq<char>, Seq<char>, Seq<char>);

    open spec fn view(&self) -> (Seq<char>, Seq<char>, Seq<char>) {
        (self.table@, self.column@, self.column_type@)
    }
}

/// The columns that the merger relies on, each with its table and type.
pub open spec fn sync_column_specs() -> Seq<(Seq<char>, Seq<char>, Seq<char>)> {
    seq![
        ("tasks"@, "updated_at"@, "TEXT"@),
        ("tasks"@, "deleted_at"@, "TEXT"@),
        ("recurring_tasks"@, "updated_at"@, "TEXT"@),
        ("recurring_tasks"@, "deleted_at"@, "TEXT"@),
        ("recurring_tasks"@, "repeat_mode"@, "TEXT NOT NULL DEFAULT 'INTERVAL_RANGE'"@),
        ("recurring_tasks"@, "schedule_time"@, "TEXT"@),
        ("recurring_tasks"@, "schedule_weekday"@, "INTEGER"@),
        ("recurring_tasks"@, "schedule_day"@, "INTEGER"@),
        ("recurring_tasks"@, "cron_expression"@, "TEXT"@),
        ("reminder_records"@, "updated_at"@, "TEXT"@),
        ("reminder_records"@, "deleted_at"@, "TEXT"@),
    ]
}

/// The columns that the merger relies on, each with its table and type. A
/// store that lacks one gets it added before a merge.
pub fn sync_columns() -> (r: Vec<ColumnSpec>)
    ensures
        Seq::new(r@.len(), |i: int| r@[i]@) == sync_column_specs(),
{
    let mut r: Vec<ColumnSpec> = Vec::new();
    r.push(ColumnSpec { table: "tasks", column: "updated_at", column_type: "TEXT" });
    r.push(ColumnSpec { table: "tasks", column: "deleted_at", column_type: "TEXT" });
    r.push(ColumnSpec { table: "recurring_tasks", column: "updated_at", column_type: "TEXT" });
    r.push(ColumnSpec { table: "recurring_tasks", column: "deleted_at", column_type: "TEXT" });
    r.push(ColumnSpec { table: "recurring_tasks", column: "repeat_mode", column_type: "TEXT NOT NULL DEFAULT 'INTERVAL_RANGE'" });
    r.push(ColumnSpec { table: "recurring_tasks", column: "schedule_time", column_type: "TEXT" });
    r.push(ColumnSpec { table: "recurring_tasks", column: "schedule_weekday", column_type: "INTEGER" });
    r.push(ColumnSpec { table: "recurring_tasks", column: "schedule_day", column_type: "INTEGER" });
    r.push(ColumnSpec { table: "recurring_tasks", column: "cron_expression", column_type: "TEXT" });
    r.push(ColumnSpec { table: "reminder_records", column: "updated_at", column_type: "TEXT" });
    r.push(ColumnSpec { table: "reminder_records", column: "deleted_at", column_type: "TEXT" });
    assert(Seq::new(r@.len(), |i: int| r@[i]@) =~= sync_column_specs());
    r
}

} // verus!
