//! Ordered rows of named values.
//!
//! A [`Row`] keeps its fields in the order in which they were first
//! inserted. The storage is an `indexmap::IndexMap`; what it holds is
//! modelled as a sequence of `(name, cell)` pairs, and the contracts of this
//! module describe every operation as a change to that sequence.

use indexmap::IndexMap;
use vstd::prelude::*;

verus! {

/// The mathematical content of a [`Value`].
pub enum Cell {
    /// A scalar.
    Text(Seq<char>),
    /// A nested row: its fields in order.
    Row(Seq<(Seq<char>, Cell)>),
    /// A sequence of rows.
    Table(Seq<Seq<(Seq<char>, Cell)>>),
}

/// The fields of a row, in order.
pub type Fields = Seq<(Seq<char>, Cell)>;

/// What a field of a row can hold.
pub enum Value {
    /// A scalar.
    Text(String),
    /// A nested row.
    Row(Row),
    /// An ordered sequence of rows.
    Table(Vec<Row>),
}

/// An ordered mapping from field name to [`Value`].
///
/// The map inside is opaque to the verifier; `row_entries` names what it
/// holds.
#[verifier::external_body]
pub struct Row {
    map: IndexMap<String, Value>,
}

/// The `(name, content)` pairs that the map inside a row holds, in the map's
/// own order.
pub uninterp spec fn row_entries(row: Row) -> Seq<(Seq<char>, Cell)>;

impl View for Row {
    type V = Fields;

    open spec fn view(&self) -> Fields {
        row_entries(*self)
    }
}

impl View for Value {
    type V = Cell;

    open spec fn view(&self) -> Cell {
        match self {
            Value::Text(s) => Cell::Text(s@),
            Value::Row(r) => Cell::Row(r@),
            Value::Table(rows) => Cell::Table(rows@.map_values(|r: Row| r@)),
        }
    }
}

/// Whether some field of `fields` is called `name`.
pub open spec fn has_field(fields: Fields, name: Seq<char>) -> bool {
    exists|i: int| #![trigger fields[i]] 0 <= i < fields.len() && fields[i].0 == name
}

/// Whether `fields` holds a field called `name` with the content `cell`.
pub open spec fn holds(fields: Fields, name: Seq<char>, cell: Cell) -> bool {
    exists|i: int| #![trigger fields[i]] 0 <= i < fields.len() && fields[i] == (name, cell)
}

/// Whether `after` is `before` with the content of one field called `name`
/// changed from `former` to `cell`, the field staying where it was.
pub open spec fn replaces(
    before: Fields,
    after: Fields,
    name: Seq<char>,
    former: Cell,
    cell: Cell,
) -> bool {
    exists|i: int|
        #![trigger before[i]]
        0 <= i < before.len() && before[i] == (name, former) && after == before.update(
            i,
            (name, cell),
        )
}

/// `IndexMap::new`: the map starts without entries.
#[verifier::external_body]
fn map_new() -> (row: Row)
    ensures
        row_entries(row) == Seq::<(Seq<char>, Cell)>::empty(),
{
    Row { map: IndexMap::new() }
}

/// `IndexMap::len`: the number of entries.
#[verifier::external_body]
fn map_len(row: &Row) -> (n: usize)
    ensures
        n == row_entries(*row).len(),
{
    row.map.len()
}

/// `IndexMap::insert`. A key that the map does not hold yet is appended as
/// the last entry and `None` comes back. For a key that it holds, the entry
/// keeps its place, takes the new value, and the value it had comes back.
#[verifier::external_body]
fn map_insert(row: &mut Row, key: String, value: Value) -> (previous: Option<Value>)
    ensures
        previous is None ==> !has_field(row_entries(*old(row)), key@),
        previous is None ==> row_entries(*final(row)) == row_entries(*old(row)).push(
            (key@, value@),
        ),
        previous is Some ==> replaces(
            row_entries(*old(row)),
            row_entries(*final(row)),
            key@,
            previous->Some_0@,
            value@,
        ),
{
    row.map.insert(key, value)
}

/// `IndexMap::get`: the value of the entry with this key, and `None` where
/// no entry has it.
#[verifier::external_body]
fn map_get<'a>(row: &'a Row, key: &str) -> (found: Option<&'a Value>)
    ensures
        found is None ==> !has_field(row_entries(*row), key@),
        found is Some ==> holds(row_entries(*row), key@, found->Some_0@),
{
    row.map.get(key)
}

/// `IndexMap::get_index`: the key and value of the entry at a position, and
/// `None` for a position that is not below the length.
#[verifier::external_body]
fn map_get_index<'a>(row: &'a Row, index: usize) -> (entry: Option<(&'a String, &'a Value)>)
    ensures
        entry is None ==> index >= row_entries(*row).len(),
        entry is Some ==> index < row_entries(*row).len(),
        entry is Some ==> row_entries(*row)[index as int] == (
            entry->Some_0.0@,
            entry->Some_0.1@,
        ),
{
    row.map.get_index(index)
}

impl Row {
    /// A row without fields.
    pub fn new() -> (row: Row)
        ensures
            row@ == Seq::<(Seq<char>, Cell)>::empty(),
    {
        map_new()
    }

    /// The number of fields.
    pub fn len(&self) -> (n: usize)
        ensures
            n == self@.len(),
    {
        map_len(self)
    }

    /// Sets the field `key` to `value`.
    ///
    /// A new name becomes the last field and `None` is returned. An existing
    /// name keeps its position, takes the new value, and its former value is
    /// returned.
    pub fn insert(&mut self, key: String, value: Value) -> (previous: Option<Value>)
        ensures
            previous is None <==> !has_field(old(self)@, key@),
            previous is None ==> final(self)@ == old(self)@.push((key@, value@)),
            previous is Some ==> replaces(
                old(self)@,
                final(self)@,
                key@,
                previous->Some_0@,
                value@,
            ),
    {
        map_insert(self, key, value)
    }

    /// The value of the field called `key`, if the row has one.
    pub fn get(&self, key: &str) -> (found: Option<&Value>)
        ensures
            found is Some <==> has_field(self@, key@),
            found is Some ==> holds(self@, key@, found->Some_0@),
    {
        map_get(self, key)
    }

    /// The name and value of the field at `index`, for `index < len()`.
    pub fn get_index(&self, index: usize) -> (entry: Option<(&String, &Value)>)
        ensures
            entry is Some <==> index < self@.len(),
            entry is Some ==> self@[index as int] == (entry->Some_0.0@, entry->Some_0.1@),
    {
        map_get_index(self, index)
    }
}

} // verus!
