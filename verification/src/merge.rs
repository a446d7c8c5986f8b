//! The merger: reconciles the rows of a table of the local store with the
//! rows of the same table in a downloaded copy, row by row, the version
//! with the newer timestamp winning.

use crate::datemath::{
    digit_char, digit_of, moment_of, parse_datetime_any, timestamp_parsed, Moment, Timestamp,
};
use crate::models::text_of;
use crate::text::str_eq;
use vstd::prelude::*;

verus! {

/// A number that is not negative in decimal digits, without leading zeros.
pub open spec fn digits_text(n: nat) -> Seq<char>
    decreases n,
{
    if n < 10 {
        seq![digit_char(n as int)]
    } else {
        digits_text(n / 10).push(digit_char((n % 10) as int))
    }
}

/// An integer in decimal digits, with a minus sign in front where it is
/// negative.
pub open spec fn decimal_text(n: int) -> Seq<char> {
    if n < 0 {
        seq!['-'] + digits_text((-n) as nat)
    } else {
        digits_text(n as nat)
    }
}

/// Writes a number in decimal digits.
fn digits_of(n: u64) -> (r: String)
    ensures
        r@ == digits_text(n as nat),
{
    // The digits behind the first, the last of them first.
    let mut rest: Vec<char> = Vec::new();
    let ghost mut tail: Seq<char> = Seq::empty();
    let mut m: u64 = n;
    while m >= 10
        invariant
            digits_text(n as nat) == digits_text(m as nat) + tail,
            tail.len() == rest.len(),
            forall|k: int| 0 <= k < tail.len() ==> tail[k] == rest@[rest.len() - 1 - k],
        decreases m,
    {
        let d = digit_of((m % 10) as u32);
        proof {
            let before = tail;
            tail = seq![d] + tail;
            assert(digits_text((m / 10) as nat).push(d) + before =~= digits_text((m / 10) as nat)
                + tail);
        }
        rest.push(d);
        m = m / 10;
    }
    let mut r = String::new();
    r.push(digit_of(m as u32));
    let mut i: usize = rest.len();
    while i > 0
        invariant
            i <= rest.len(),
            tail.len() == rest.len(),
            forall|k: int| 0 <= k < tail.len() ==> tail[k] == rest@[rest.len() - 1 - k],
            r@ == digits_text(m as nat) + tail.take(rest.len() - i),
            m < 10,
        decreases i,
    {
        i -= 1;
        r.push(rest[i]);
        assert(tail.take(rest.len() - i) =~= tail.take(rest.len() - i - 1).push(rest@[i as int]));
    }
    assert(tail.take(rest.len() as int) =~= tail);
    r
}

/// Writes an integer in decimal digits, as `i64::to_string` does.
pub fn integer_text(n: i64) -> (r: String)
    ensures
        r@ == decimal_text(n as int),
{
    if n < 0 {
        let magnitude: u64 = if n == i64::MIN {
            9_223_372_036_854_775_808
        } else {
            (-n) as u64
        };
        let mut r = String::new();
        r.push('-');
        r.append(digits_of(magnitude).as_str());
        r
    } else {
        digits_of(n as u64)
    }
}

/// One value of a row of the store. A floating-point value is held by its
/// bits, together with the text in which it prints.
#[derive(Debug, PartialEq, Eq)]
pub enum SqlValue {
    Null,
    Integer(i64),
    Real { bits: u64, text: String },
    Text(String),
    Blob(Vec<u8>),
}

/// The mathematical value of a [`SqlValue`].
pub enum SqlValueView {
    Null,
    Integer(int),
    Real { bits: int, text: Seq<char> },
    Text(Seq<char>),
    Blob(Seq<u8>),
}

impl View for SqlValue {
    type V = SqlValueView;

    open spec fn view(&self) -> SqlValueView {
        match self {
            SqlValue::Null => SqlValueView::Null,
            SqlValue::Integer(n) => SqlValueView::Integer(*n as int),
            SqlValue::Real { bits, text } => SqlValueView::Real { bits: *bits as int, text: text@ },
            SqlValue::Text(t) => SqlValueView::Text(t@),
            SqlValue::Blob(b) => SqlValueView::Blob(b@),
        }
    }
}

/// A copy of a sequence of bytes.
fn clone_bytes(b: &Vec<u8>) -> (r: Vec<u8>)
    ensures
        r@ == b@,
{
    let mut r: Vec<u8> = Vec::new();
    let mut i: usize = 0;
    while i < b.len()
        invariant
            i <= b.len(),
            r@ == b@.take(i as int),
        decreases b.len() - i,
    {
        r.push(b[i]);
        i += 1;
        assert(r@ =~= b@.take(i as int));
    }
    assert(b@.take(b.len() as int) =~= b@);
    r
}

impl Clone for SqlValue {
    fn clone(&self) -> (r: SqlValue)
        ensures
            r@ == self@,
    {
        match self {
            SqlValue::Null => SqlValue::Null,
            SqlValue::Integer(n) => SqlValue::Integer(*n),
            SqlValue::Real { bits, text } => SqlValue::Real { bits: *bits, text: text.clone() },
            SqlValue::Text(t) => SqlValue::Text(t.clone()),
            SqlValue::Blob(b) => SqlValue::Blob(clone_bytes(b)),
        }
    }
}

/// The views of the values of a row.
pub open spec fn values_view(values: Seq<SqlValue>) -> Seq<SqlValueView> {
    Seq::new(values.len(), |i: int| values[i]@)
}

/// The text of a value: a text itself, a number as it prints, and nothing
/// for a null or a blob.
pub open spec fn value_text(v: SqlValueView) -> Option<Seq<char>> {
    match v {
        SqlValueView::Text(t) => Some(t),
        SqlValueView::Integer(n) => Some(decimal_text(n)),
        SqlValueView::Real { bits, text } => Some(text),
        _ => None,
    }
}

/// The text of a value, where it has one.
pub fn value_to_string(value: &SqlValue) -> (r: Option<String>)
    ensures
        text_of(r) == value_text(value@),
{
    match value {
        SqlValue::Text(t) => Some(t.clone()),
        SqlValue::Integer(n) => Some(integer_text(*n)),
        SqlValue::Real { bits, text } => Some(text.clone()),
        _ => None,
    }
}

/// The timestamp text by which a row is compared: the time of its last
/// update where that is not empty, else the time of its deletion where that
/// is not empty, else the table's fallback column.
pub open spec fn compare_text(
    updated: Option<Seq<char>>,
    deleted: Option<Seq<char>>,
    fallback: Option<Seq<char>>,
) -> Option<Seq<char>> {
    if updated is Some && updated->0.len() > 0 {
        updated
    } else if deleted is Some && deleted->0.len() > 0 {
        deleted
    } else {
        fallback
    }
}

/// Picks the timestamp text by which a row is compared.
pub fn normalize_compare_time(
    updated: Option<String>,
    deleted: Option<String>,
    fallback: Option<String>,
) -> (r: Option<String>)
    ensures
        text_of(r) == compare_text(text_of(updated), text_of(deleted), text_of(fallback)),
{
    match updated {
        Some(u) => {
            if u.as_str().unicode_len() > 0 {
                return Some(u);
            }
        },
        None => {},
    }
    match deleted {
        Some(d) => {
            if d.as_str().unicode_len() > 0 {
                return Some(d);
            }
        },
        None => {},
    }
    fallback
}

/// Where the columns that the merger reads stand in a row.
#[derive(Clone, Copy, Debug, PartialEq, Eq)]
pub struct ColumnLayout {
    pub id: usize,
    pub updated: Option<usize>,
    pub deleted: Option<usize>,
    pub fallback: Option<usize>,
}

impl ColumnLayout {
    /// Whether every column of the layout lies within a row of the given
    /// width.
    pub open spec fn fits(self, width: int) -> bool {
        &&& self.id < width
        &&& self.updated matches Some(i) ==> i < width
        &&& self.deleted matches Some(i) ==> i < width
        &&& self.fallback matches Some(i) ==> i < width
    }
}

/// The views of a list of names.
pub open spec fn names_view(names: Seq<&str>) -> Seq<Seq<char>> {
    Seq::new(names.len(), |i: int| names[i]@)
}

/// Whether a name stands at a place of a list and at no earlier one.
pub open spec fn is_first_place(names: Seq<Seq<char>>, name: Seq<char>, i: int) -> bool {
    0 <= i < names.len() && names[i] == name && forall|j: int| 0 <= j < i ==> names[j] != name
}

/// Whether a name stands nowhere in a list.
pub open spec fn is_absent(names: Seq<Seq<char>>, name: Seq<char>) -> bool {
    forall|j: int| 0 <= j < names.len() ==> names[j] != name
}

/// Whether an optional place is the first place of a name in a list, or
/// none where the list lacks the name.
pub open spec fn is_place_of(names: Seq<Seq<char>>, name: Seq<char>, place: Option<usize>) -> bool {
    match place {
        Some(i) => is_first_place(names, name, i as int),
        None => is_absent(names, name),
    }
}

/// Finds the first place at which a name stands in a list of names.
pub fn column_position(columns: &Vec<&str>, name: &str) -> (r: Option<usize>)
    ensures
        is_place_of(names_view(columns@), name@, r),
{
    let mut i: usize = 0;
    while i < columns.len()
        invariant
            i <= columns.len(),
            forall|j: int| 0 <= j < i ==> names_view(columns@)[j] != name@,
        decreases columns.len() - i,
    {
        if str_eq(columns[i], name) {
            assert(names_view(columns@)[i as int] == name@);
            return Some(i);
        }
        assert(names_view(columns@)[i as int] != name@);
        i += 1;
    }
    None
}

/// Whether a layout is that of a table with the given columns: the key is
/// the first column named `id`, or the first column where none is named so;
/// the update time, the deletion time and the fallback column are the first
/// columns of their names, where the table has them.
pub open spec fn is_layout_of(
    layout: ColumnLayout,
    names: Seq<Seq<char>>,
    fallback_time_column: Seq<char>,
) -> bool {
    &&& is_first_place(names, "id"@, layout.id as int) || (layout.id == 0 && is_absent(
        names,
        "id"@,
    ))
    &&& is_place_of(names, "updated_at"@, layout.updated)
    &&& is_place_of(names, "deleted_at"@, layout.deleted)
    &&& is_place_of(names, fallback_time_column, layout.fallback)
}

/// Reads the layout of a table off its column names.
pub fn layout_of(columns: &Vec<&str>, fallback_time_column: &str) -> (r: ColumnLayout)
    requires
        columns.len() > 0,
    ensures
        r.fits(columns.len() as int),
        is_layout_of(r, names_view(columns@), fallback_time_column@),
{
    let id = match column_position(columns, "id") {
        Some(i) => i,
        None => 0,
    };
    ColumnLayout {
        id,
        updated: column_position(columns, "updated_at"),
        deleted: column_position(columns, "deleted_at"),
        fallback: column_position(columns, fallback_time_column),
    }
}

/// A row as the merger compares it: its values, and the timestamp by which
/// it is compared, where the row has one that can be read.
#[derive(Debug, PartialEq, Eq)]
pub struct RowData {
    pub values: Vec<SqlValue>,
    pub compare_time: Option<Timestamp>,
}

/// The mathematical value of a [`RowData`].
pub struct RowView {
    pub values: Seq<SqlValueView>,
    pub compare_time: Option<Moment>,
}

impl View for RowData {
    type V = RowView;

    open spec fn view(&self) -> RowView {
        RowView { values: values_view(self.values@), compare_time: moment_of(self.compare_time) }
    }
}

impl Clone for RowData {
    fn clone(&self) -> (r: RowData)
        ensures
            r@ == self@,
    {
        let mut values: Vec<SqlValue> = Vec::new();
        let mut i: usize = 0;
        while i < self.values.len()
            invariant
                i <= self.values.len(),
                values.len() == i,
                forall|j: int| 0 <= j < i ==> values[j]@ == self.values[j]@,
            decreases self.values.len() - i,
        {
            values.push(self.values[i].clone());
            i += 1;
        }
        assert(values_view(values@) =~= values_view(self.values@));
        RowData { values, compare_time: self.compare_time }
    }
}

/// A row with the identifier under which the merger files it.
#[derive(Debug, PartialEq, Eq)]
pub struct KeyedRow {
    pub id: String,
    pub data: RowData,
}

/// The mathematical value of a [`KeyedRow`].
pub struct KeyedRowView {
    pub id: Seq<char>,
    pub data: RowView,
}

impl View for KeyedRow {
    type V = KeyedRowView;

    open spec fn view(&self) -> KeyedRowView {
        KeyedRowView { id: self.id@, data: self.data@ }
    }
}

/// The text of an optional column of a row.
pub open spec fn column_text(values: Seq<SqlValueView>, column: Option<usize>) -> Option<Seq<char>> {
    match column {
        Some(i) => value_text(values[i as int]),
        None => None,
    }
}

/// The timestamp text by which a row of a layout is compared.
pub open spec fn row_compare_text(values: Seq<SqlValueView>, layout: ColumnLayout) -> Option<
    Seq<char>,
> {
    compare_text(
        column_text(values, layout.updated),
        column_text(values, layout.deleted),
        column_text(values, layout.fallback),
    )
}

/// The timestamp that an optional text names.
pub open spec fn compare_moment(text: Option<Seq<char>>) -> Option<Moment> {
    match text {
        Some(t) => timestamp_parsed(t),
        None => None,
    }
}

/// A row as the merger files it: nothing for a row without an identifier;
/// else the row under the text of its identifier, with the values that it
/// was read with and the timestamp that its compare text names.
pub open spec fn prepared(values: Seq<SqlValueView>, layout: ColumnLayout) -> Option<
    KeyedRowView,
> {
    match value_text(values[layout.id as int]) {
        None => None,
        Some(id) => Some(
            KeyedRowView {
                id,
                data: RowView {
                    values,
                    compare_time: compare_moment(row_compare_text(values, layout)),
                },
            },
        ),
    }
}

/// The text of an optional column of a row.
fn column_value(values: &Vec<SqlValue>, column: Option<usize>) -> (r: Option<String>)
    requires
        column matches Some(i) ==> i < values.len(),
    ensures
        text_of(r) == column_text(values_view(values@), column),
{
    match column {
        Some(i) => value_to_string(&values[i]),
        None => None,
    }
}

/// Files a row that was read from a table: finds its identifier and the
/// timestamp by which it is compared. The values of the row stay as they
/// were read, so that a row which is written back is written as it was.
pub fn prepare_row(values: Vec<SqlValue>, layout: &ColumnLayout) -> (r: Option<KeyedRow>)
    requires
        layout.fits(values.len() as int),
    ensures
        match prepared(values_view(values@), *layout) {
            Some(k) => r matches Some(x) && x@ == k && x.data.values@ == values@,
            None => r is None,
        },
{
    let id = match value_to_string(&values[layout.id]) {
        Some(id) => id,
        None => {
            return None;
        },
    };
    let updated = column_value(&values, layout.updated);
    let deleted = column_value(&values, layout.deleted);
    let fallback = column_value(&values, layout.fallback);
    let compare_time = match normalize_compare_time(updated, deleted, fallback) {
        Some(text) => parse_datetime_any(text.as_str()),
        None => None,
    };
    Some(KeyedRow { id, data: RowData { values, compare_time } })
}

/// Whether no identifier stands twice in a table.
pub open spec fn keys_distinct(t: Seq<KeyedRowView>) -> bool {
    forall|i: int, j: int| 0 <= i < j < t.len() ==> t[i].id != t[j].id
}

/// Whether a table has a row under an identifier.
pub open spec fn has_id(t: Seq<KeyedRowView>, id: Seq<char>) -> bool {
    exists|i: int| 0 <= i < t.len() && t[i].id == id
}

/// The place of the row under an identifier.
pub open spec fn place_of(t: Seq<KeyedRowView>, id: Seq<char>) -> int {
    choose|i: int| 0 <= i < t.len() && t[i].id == id
}

/// The row under an identifier, where the table has one.
pub open spec fn row_of(t: Seq<KeyedRowView>, id: Seq<char>) -> Option<RowView> {
    if has_id(t, id) {
        Some(t[place_of(t, id)].data)
    } else {
        None
    }
}

/// A table with a row filed under its identifier: in place of the row that
/// stood under that identifier, or at the end.
pub open spec fn with_row(t: Seq<KeyedRowView>, row: KeyedRowView) -> Seq<KeyedRowView> {
    if has_id(t, row.id) {
        t.update(place_of(t, row.id), row)
    } else {
        t.push(row)
    }
}

/// The rows of a table, filed one after the other; rows without an
/// identifier are passed over.
pub open spec fn table_of(raw: Seq<Seq<SqlValueView>>, layout: ColumnLayout) -> Seq<KeyedRowView>
    decreases raw.len(),
{
    if raw.len() == 0 {
        Seq::empty()
    } else {
        let t = table_of(raw.drop_last(), layout);
        match prepared(raw.last(), layout) {
            Some(row) => with_row(t, row),
            None => t,
        }
    }
}

/// The rows of one table of a store, each under its identifier, no
/// identifier twice.
#[derive(Debug, PartialEq, Eq)]
pub struct RowTable {
    pub entries: Vec<KeyedRow>,
}

impl View for RowTable {
    type V = Seq<KeyedRowView>;

    open spec fn view(&self) -> Seq<KeyedRowView> {
        Seq::new(self.entries@.len(), |i: int| self.entries@[i]@)
    }
}

impl RowTable {
    /// The invariant of a table: no identifier stands twice, and the
    /// timestamps of the rows are within their ranges.
    pub open spec fn wf(&self) -> bool {
        keys_distinct(self@) && table_wf(self@)
    }

    /// A table without rows.
    pub fn new() -> (r: RowTable)
        ensures
            r@ == Seq::<KeyedRowView>::empty(),
            r.wf(),
    {
        let r = RowTable { entries: Vec::new() };
        assert(r@ =~= Seq::<KeyedRowView>::empty());
        r
    }

    /// Number of rows.
    pub fn len(&self) -> (n: usize)
        ensures
            n == self@.len(),
    {
        self.entries.len()
    }

    /// The place of the row under an identifier.
    pub fn find(&self, id: &str) -> (r: Option<usize>)
        requires
            self.wf(),
        ensures
            match r {
                Some(i) => i < self@.len() && has_id(self@, id@) && place_of(self@, id@) == i
                    && self@[i as int].id == id@,
                None => !has_id(self@, id@),
            },
    {
        let mut i: usize = 0;
        while i < self.entries.len()
            invariant
                self.wf(),
                i <= self.entries.len(),
                forall|j: int| 0 <= j < i ==> self@[j].id != id@,
            decreases self.entries.len() - i,
        {
            if str_eq(self.entries[i].id.as_str(), id) {
                assert(self@[i as int].id == id@);
                proof {
                    lemma_place_of(self@, id@, i as int);
                }
                return Some(i);
            }
            i += 1;
        }
        None
    }

    /// The row under an identifier, where the table has one.
    pub fn get(&self, id: &str) -> (r: Option<&RowData>)
        requires
            self.wf(),
        ensures
            match r {
                Some(row) => row_of(self@, id@) == Some(row@),
                None => row_of(self@, id@) is None,
            },
    {
        match self.find(id) {
            Some(i) => Some(&self.entries[i].data),
            None => None,
        }
    }

    /// Files a row under its identifier, in place of the row that stood
    /// there or at the end.
    pub fn insert(&mut self, row: KeyedRow)
        requires
            old(self).wf(),
            row_wf(row@.data),
        ensures
            final(self).wf(),
            final(self)@ == with_row(old(self)@, row@),
    {
        proof {
            lemma_with_row_distinct(self@, row@);
        }
        match self.find(row.id.as_str()) {
            Some(i) => {
                let ghost before = self@;
                let ghost r = row@;
                self.entries.set(i, row);
                assert(self@ =~= before.update(i as int, r));
            },
            None => {
                let ghost before = self@;
                let ghost r = row@;
                self.entries.push(row);
                assert(self@ =~= before.push(r));
            },
        }
    }
}

/// In a table without repeated identifiers, a row that stands under an
/// identifier is the row of that identifier.
proof fn lemma_place_of(t: Seq<KeyedRowView>, id: Seq<char>, i: int)
    requires
        keys_distinct(t),
        0 <= i < t.len(),
        t[i].id == id,
    ensures
        has_id(t, id),
        place_of(t, id) == i,
        row_of(t, id) == Some(t[i].data),
{
    let k = place_of(t, id);
    if k < i {
        assert(t[k].id != t[i].id);
    } else if i < k {
        assert(t[i].id != t[k].id);
    }
}

/// Filing a row keeps a table free of repeated identifiers.
proof fn lemma_with_row_distinct(t: Seq<KeyedRowView>, row: KeyedRowView)
    requires
        keys_distinct(t),
    ensures
        keys_distinct(with_row(t, row)),
{
    let u = with_row(t, row);
    if has_id(t, row.id) {
        let k = place_of(t, row.id);
        assert forall|i: int, j: int| 0 <= i < j < u.len() implies u[i].id != u[j].id by {
            assert(u[i].id == t[i].id);
            assert(u[j].id == t[j].id);
        }
    } else {
        assert forall|i: int, j: int| 0 <= i < j < u.len() implies u[i].id != u[j].id by {
            if j == t.len() {
                assert(t[i].id != row.id);
            }
        }
    }
}

/// Files the rows that were read from a table, one after the other. Each
/// row has one value for each column of the layout.
pub fn index_rows(rows: Vec<Vec<SqlValue>>, layout: &ColumnLayout) -> (r: RowTable)
    requires
        forall|i: int| 0 <= i < rows.len() ==> layout.fits(#[trigger] rows[i].len() as int),
    ensures
        r.wf(),
        r@ == table_of(raw_view(rows@), *layout),
{
    let ghost all = raw_view(rows@);
    let mut table = RowTable::new();
    let mut rows = rows;
    let n = rows.len();
    let mut i: usize = 0;
    // The rows are taken from the end of a reversed list, so that each is
    // moved out in its turn.
    reverse_rows(&mut rows);
    assert(all.take(0) =~= Seq::<Seq<SqlValueView>>::empty());
    while i < n
        invariant
            n == all.len(),
            i <= n,
            rows.len() == n - i,
            forall|k: int| 0 <= k < rows.len() ==> values_view(#[trigger] rows[k]@) == all[n - 1 - k],
            forall|k: int| 0 <= k < rows.len() ==> layout.fits(#[trigger] rows[k].len() as int),
            table.wf(),
            table@ == table_of(all.take(i as int), *layout),
        decreases n - i,
    {
        let values = rows.pop().unwrap();
        proof {
            let upto = all.take(i + 1);
            assert(upto.drop_last() =~= all.take(i as int));
            assert(upto.last() == all[i as int]);
            assert(values_view(values@) == all[i as int]);
        }
        match prepare_row(values, layout) {
            Some(row) => {
                table.insert(row);
            },
            None => {},
        }
        i += 1;
    }
    assert(all.take(n as int) =~= all);
    table
}

/// The views of the rows that were read from a table.
pub open spec fn raw_view(rows: Seq<Vec<SqlValue>>) -> Seq<Seq<SqlValueView>> {
    Seq::new(rows.len(), |i: int| values_view(rows[i]@))
}

/// Reverses a list of rows in place.
fn reverse_rows(rows: &mut Vec<Vec<SqlValue>>)
    ensures
        final(rows).len() == old(rows).len(),
        forall|k: int|
            0 <= k < old(rows).len() ==> (#[trigger] final(rows)[k]) == old(rows)[old(rows).len() - 1
                - k],
{
    let ghost before = rows@;
    let mut out: Vec<Vec<SqlValue>> = Vec::new();
    let n = rows.len();
    while rows.len() > 0
        invariant
            rows.len() + out.len() == n,
            n == before.len(),
            forall|k: int| 0 <= k < rows.len() ==> (#[trigger] rows[k]) == before[k],
            forall|k: int| 0 <= k < out.len() ==> (#[trigger] out[k]) == before[n - 1 - k],
        decreases rows.len(),
    {
        let v = rows.pop().unwrap();
        out.push(v);
    }
    *rows = out;
}

/// Which of two versions of a row survives. A row that only one side has
/// is taken from that side. Of two versions, the remote one survives where
/// both timestamps can be read and the remote one is the later; in every
/// other case, a tie and a timestamp that cannot be read among them, the
/// local one survives.
pub open spec fn chosen(local: Option<RowView>, remote: Option<RowView>) -> Option<RowView> {
    match (local, remote) {
        (Some(l), None) => Some(l),
        (None, Some(r)) => Some(r),
        (Some(l), Some(r)) => if remote_is_newer(l, r) {
            Some(r)
        } else {
            Some(l)
        },
        (None, None) => None,
    }
}

/// Whether the remote version of a row has the later timestamp.
pub open spec fn remote_is_newer(local: RowView, remote: RowView) -> bool {
    local.compare_time is Some && remote.compare_time is Some && remote.compare_time->0.key()
        > local.compare_time->0.key()
}

/// The timestamps of rows are within their ranges.
pub open spec fn row_wf(row: RowView) -> bool {
    row.compare_time matches Some(m) ==> m.wf()
}

/// Chooses between the local and the remote version of a row.
pub fn choose_row<'a>(local: Option<&'a RowData>, remote: Option<&'a RowData>) -> (r: Option<
    &'a RowData,
>)
    requires
        local matches Some(l) ==> row_wf(l@),
        remote matches Some(x) ==> row_wf(x@),
    ensures
        match (local, remote) {
            (Some(l), None) => r == Some(l),
            (None, Some(x)) => r == Some(x),
            (Some(l), Some(x)) => r == Some(
                if remote_is_newer(l@, x@) {
                    x
                } else {
                    l
                },
            ),
            (None, None) => r is None,
        },
{
    match (local, remote) {
        (Some(l), None) => Some(l),
        (None, Some(r)) => Some(r),
        (Some(l), Some(r)) => match (l.compare_time, r.compare_time) {
            (Some(lc), Some(rc)) => {
                if rc.is_after(&lc) {
                    Some(r)
                } else {
                    Some(l)
                }
            },
            _ => Some(l),
        },
        (None, None) => None,
    }
}

/// The rows that survive among those that the local table has, in the
/// local table's order.
pub open spec fn merged_local(local: Seq<KeyedRowView>, remote: Seq<KeyedRowView>) -> Seq<
    RowView,
> {
    Seq::new(local.len(), |i: int| chosen(Some(local[i].data), row_of(remote, local[i].id))->0)
}

/// The rows that only the remote table has, in the remote table's order.
pub open spec fn remote_only(local: Seq<KeyedRowView>, remote: Seq<KeyedRowView>) -> Seq<RowView>
    decreases remote.len(),
{
    if remote.len() == 0 {
        Seq::empty()
    } else {
        let rest = remote_only(local, remote.drop_last());
        if has_id(local, remote.last().id) {
            rest
        } else {
            rest.push(remote.last().data)
        }
    }
}

/// The rows to write into the local table after a merge: for every
/// identifier that either table has, the version that survives.
pub open spec fn merged(local: Seq<KeyedRowView>, remote: Seq<KeyedRowView>) -> Seq<RowView> {
    merged_local(local, remote) + remote_only(local, remote)
}

/// Whether the timestamps of all rows of a table are within their ranges.
pub open spec fn table_wf(t: Seq<KeyedRowView>) -> bool {
    forall|i: int| 0 <= i < t.len() ==> row_wf(#[trigger] t[i].data)
}

/// The views of a list of rows.
pub open spec fn rows_view(rows: Seq<RowData>) -> Seq<RowView> {
    Seq::new(rows.len(), |i: int| rows[i]@)
}

/// Reconciles a table of the local store with the same table of the remote
/// copy. The result holds, for every identifier that either table has, the
/// version of the row that survives: first the identifiers of the local
/// table, then those that only the remote table has.
pub fn merge_rows(local: &RowTable, remote: &RowTable) -> (r: Vec<RowData>)
    requires
        local.wf(),
        remote.wf(),
    ensures
        rows_view(r@) == merged(local@, remote@),
{
    let mut out: Vec<RowData> = Vec::new();
    let mut i: usize = 0;
    while i < local.entries.len()
        invariant
            i <= local.entries.len(),
            local.wf(),
            remote.wf(),
            out.len() == i,
            forall|k: int|
                0 <= k < i ==> (#[trigger] out[k])@ == chosen(
                    Some(local@[k].data),
                    row_of(remote@, local@[k].id),
                )->0,
        decreases local.entries.len() - i,
    {
        let entry = &local.entries[i];
        assert(entry@ == local@[i as int]);
        assert(row_wf(local@[i as int].data));
        let other = remote.get(entry.id.as_str());
        proof {
            if has_id(remote@, entry.id@) {
                assert(row_wf(remote@[place_of(remote@, entry.id@)].data));
            }
        }
        match choose_row(Some(&entry.data), other) {
            Some(row) => {
                out.push(row.clone());
            },
            None => {},
        }
        i += 1;
    }
    assert(rows_view(out@) =~= merged_local(local@, remote@));
    let mut j: usize = 0;
    assert(remote@.take(0) =~= Seq::<KeyedRowView>::empty());
    while j < remote.entries.len()
        invariant
            j <= remote.entries.len(),
            local.wf(),
            remote.wf(),
            rows_view(out@) == merged_local(local@, remote@) + remote_only(
                local@,
                remote@.take(j as int),
            ),
        decreases remote.entries.len() - j,
    {
        let entry = &remote.entries[j];
        proof {
            let upto = remote@.take(j + 1);
            assert(upto.drop_last() =~= remote@.take(j as int));
            assert(upto.last() == remote@[j as int]);
            assert(entry@ == remote@[j as int]);
        }
        let ghost before = rows_view(out@);
        if local.find(entry.id.as_str()).is_none() {
            out.push(entry.data.clone());
            assert(rows_view(out@) =~= before.push(entry.data@));
            assert(before.push(entry.data@) =~= merged_local(local@, remote@) + remote_only(
                local@,
                remote@.take(j as int),
            ).push(entry.data@));
        }
        j += 1;
    }
    assert(remote@.take(remote@.len() as int) =~= remote@);
    out
}

/// Whichever of two versions with different readable timestamps is called
/// local and whichever remote, the later one survives.
pub proof fn lemma_later_version_survives(a: RowView, b: RowView)
    requires
        a.compare_time is Some,
        b.compare_time is Some,
        a.compare_time->0.key() < b.compare_time->0.key(),
    ensures
        chosen(Some(a), Some(b)) == Some(b),
        chosen(Some(b), Some(a)) == Some(b),
{
}

/// A table merged with a copy of itself gives its own rows: every row
/// survives as it is.
pub proof fn lemma_merge_with_itself(t: Seq<KeyedRowView>)
    requires
        keys_distinct(t),
    ensures
        merged(t, t) == Seq::new(t.len(), |i: int| t[i].data),
{
    assert forall|i: int| 0 <= i < t.len() implies #[trigger] merged_local(t, t)[i]
        == t[i].data by {
        lemma_place_of(t, t[i].id, i);
    }
    lemma_remote_only_of_part(t, t.len() as int);
    assert(t.take(t.len() as int) =~= t);
    assert(merged(t, t) =~= Seq::new(t.len(), |i: int| t[i].data));
}

/// No row of a part of a table is missing from the table.
proof fn lemma_remote_only_of_part(t: Seq<KeyedRowView>, n: int)
    requires
        0 <= n <= t.len(),
    ensures
        remote_only(t, t.take(n)) == Seq::<RowView>::empty(),
    decreases n,
{
    if n > 0 {
        let part = t.take(n);
        assert(part.drop_last() =~= t.take(n - 1));
        lemma_remote_only_of_part(t, n - 1);
        assert(t[n - 1].id == part.last().id);
    }
}

/// A row is filed with the values that it was read with.
pub proof fn lemma_prepared_keeps_values(values: Seq<SqlValueView>, layout: ColumnLayout)
    ensures
        prepared(values, layout) matches Some(row) ==> row.data.values == values,
{
}

/// Whether the rows that were read from a table all have an identifier, no
/// two of them the same.
pub open spec fn rows_are_keyed(raw: Seq<Seq<SqlValueView>>, layout: ColumnLayout) -> bool {
    &&& forall|i: int| 0 <= i < raw.len() ==> prepared(#[trigger] raw[i], layout) is Some
    &&& forall|i: int, j: int|
        0 <= i < j < raw.len() ==> prepared(raw[i], layout)->0.id != prepared(raw[j], layout)->0.id
}

/// Rows with different identifiers are filed in the order in which they
/// were read.
proof fn lemma_table_of_keyed(raw: Seq<Seq<SqlValueView>>, layout: ColumnLayout)
    requires
        rows_are_keyed(raw, layout),
    ensures
        table_of(raw, layout) == Seq::new(raw.len(), |i: int| prepared(raw[i], layout)->0),
        keys_distinct(table_of(raw, layout)),
    decreases raw.len(),
{
    if raw.len() > 0 {
        let rest = raw.drop_last();
        assert forall|i: int| 0 <= i < rest.len() implies rest[i] == raw[i] by {}
        assert(rows_are_keyed(rest, layout));
        lemma_table_of_keyed(rest, layout);
        let t = table_of(rest, layout);
        let row = prepared(raw.last(), layout)->0;
        if has_id(t, row.id) {
            let k = place_of(t, row.id);
            assert(t[k] == prepared(raw[k], layout)->0);
            assert(prepared(raw[k], layout)->0.id != prepared(raw[raw.len() - 1], layout)->0.id);
        }
        lemma_with_row_distinct(t, row);
        assert(table_of(raw, layout) =~= Seq::new(
            raw.len(),
            |i: int| prepared(raw[i], layout)->0,
        ));
    }
}

/// Merging a store with an unmodified copy of itself writes every row back
/// as it was read, whatever its columns hold: the store stays as it is.
pub proof fn lemma_unmodified_copy_changes_nothing(
    raw: Seq<Seq<SqlValueView>>,
    layout: ColumnLayout,
)
    requires
        rows_are_keyed(raw, layout),
    ensures
        Seq::new(
            raw.len(),
            |i: int| merged(table_of(raw, layout), table_of(raw, layout))[i].values,
        ) == raw,
        merged(table_of(raw, layout), table_of(raw, layout)).len() == raw.len(),
{
    let t = table_of(raw, layout);
    lemma_table_of_keyed(raw, layout);
    lemma_merge_with_itself(t);
    assert(Seq::new(raw.len(), |i: int| merged(t, t)[i].values) =~= raw);
}

/// Every row of a table that was filed from rows read is one of those rows,
/// under its identifier, and no identifier stands twice in the table.
proof fn lemma_table_of_rows(raw: Seq<Seq<SqlValueView>>, layout: ColumnLayout)
    ensures
        keys_distinct(table_of(raw, layout)),
        forall|k: int|
            0 <= k < table_of(raw, layout).len() ==> exists|j: int|
                0 <= j < raw.len() && prepared(raw[j], layout) == Some(
                    #[trigger] table_of(raw, layout)[k],
                ),
    decreases raw.len(),
{
    if raw.len() > 0 {
        let rest = raw.drop_last();
        lemma_table_of_rows(rest, layout);
        let t = table_of(rest, layout);
        let u = table_of(raw, layout);
        assert forall|k: int| 0 <= k < t.len() implies exists|j: int|
            0 <= j < raw.len() && prepared(raw[j], layout) == Some(#[trigger] t[k]) by {
            let j = choose|j: int| 0 <= j < rest.len() && prepared(rest[j], layout) == Some(t[k]);
            assert(rest[j] == raw[j]);
        }
        if prepared(raw.last(), layout) is Some {
            let row = prepared(raw.last(), layout)->0;
            lemma_with_row_distinct(t, row);
            assert forall|k: int| 0 <= k < u.len() implies exists|j: int|
                0 <= j < raw.len() && prepared(raw[j], layout) == Some(#[trigger] u[k]) by {
                if u[k] == row {
                    assert(prepared(raw[raw.len() - 1], layout) == Some(u[k]));
                } else {
                    assert(u[k] == t[k]);
                }
            }
        }
    }
}

/// Whatever rows a store holds, merging it with an unmodified copy of
/// itself writes no row but as one was read: each row written has the
/// values, column by column, of a row that was read under the same
/// identifier.
pub proof fn lemma_unmodified_copy_writes_rows_as_read(
    raw: Seq<Seq<SqlValueView>>,
    layout: ColumnLayout,
)
    ensures
        forall|k: int|
            0 <= k < merged(table_of(raw, layout), table_of(raw, layout)).len() ==> exists|j: int|
                0 <= j < raw.len() && prepared(raw[j], layout) is Some && raw[j] == (
                #[trigger] merged(table_of(raw, layout), table_of(raw, layout))[k]).values,
{
    let t = table_of(raw, layout);
    lemma_table_of_rows(raw, layout);
    lemma_merge_with_itself(t);
    assert forall|k: int| 0 <= k < merged(t, t).len() implies exists|j: int|
        0 <= j < raw.len() && prepared(raw[j], layout) is Some && raw[j] == (#[trigger] merged(
            t,
            t,
        )[k]).values by {
        let j = choose|j: int| 0 <= j < raw.len() && prepared(raw[j], layout) == Some(t[k]);
        assert(merged(t, t)[k] == t[k].data);
    }
}

} // verus!
