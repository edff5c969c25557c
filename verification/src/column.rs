//! Typed, null-aware access to the columns of a table.
//!
//! A table is a batch of named columns. A cell may be null, a column may be
//! absent or of another layout than the reader expects, and the key of a
//! dictionary-encoded cell may point outside its dictionary. Every reader in
//! this module answers such a case with `None`.

use vstd::prelude::*;

verus! {

/// A dictionary-encoded column: each cell holds a key into `values`.
#[derive(Debug, Clone, PartialEq, Eq)]
pub struct Dictionary<T> {
    /// One key per row; `None` is a null cell.
    pub keys: Vec<Option<u16>>,
    /// The dictionary; `None` is a null entry.
    pub values: Vec<Option<T>>,
}

/// The cells of one column.
#[derive(Debug, PartialEq, Eq)]
pub enum Column {
    /// Nanoseconds since the epoch.
    Timestamp(Vec<Option<i64>>),
    /// Unsigned 8-bit integers.
    UInt8(Vec<Option<u8>>),
    /// Unsigned 16-bit integers.
    UInt16(Vec<Option<u16>>),
    /// Unsigned 32-bit integers.
    UInt32(Vec<Option<u32>>),
    /// Raw bytes.
    Binary(Vec<Option<Vec<u8>>>),
    /// Dictionary-encoded text.
    StringDictionary(Dictionary<String>),
    /// Dictionary-encoded signed 32-bit integers.
    Int32Dictionary(Dictionary<i32>),
    /// Dictionary-encoded signed 64-bit integers.
    Int64Dictionary(Dictionary<i64>),
    /// A nested structure of named sub-columns.
    Struct(Vec<NamedColumn>),
}

/// A column and its name.
#[derive(Debug, PartialEq, Eq)]
pub struct NamedColumn {
    /// The column's name.
    pub name: String,
    /// The column's cells.
    pub column: Column,
}

/// A batch of named columns.
#[derive(Debug, PartialEq, Eq)]
pub struct Table {
    /// Number of rows.
    pub row_count: usize,
    /// The columns, in schema order.
    pub columns: Vec<NamedColumn>,
}

/// The cell of `cells` at `row`: `None` where the row is outside the column
/// or the cell is null.
pub open spec fn cell<T>(cells: Seq<Option<T>>, row: int) -> Option<T> {
    if 0 <= row < cells.len() {
        cells[row]
    } else {
        None
    }
}

/// The first column named `name` among `columns[from..]`.
pub open spec fn lookup_from(columns: Seq<NamedColumn>, name: Seq<char>, from: int) -> Option<
    Column,
>
    decreases columns.len() - from,
{
    if from < 0 || from >= columns.len() {
        None
    } else if columns[from].name@ == name {
        Some(columns[from].column)
    } else {
        lookup_from(columns, name, from + 1)
    }
}

/// The first column named `name` among `columns`.
pub open spec fn lookup(columns: Seq<NamedColumn>, name: Seq<char>) -> Option<Column> {
    lookup_from(columns, name, 0)
}

/// Compares two string slices with `str`'s `==` of the standard library, which
/// holds exactly when both hold the same characters.
#[verifier::external_body]
fn same_text(a: &str, b: &str) -> (same: bool)
    ensures
        same == (a@ == b@),
{
    a == b
}

/// Returns the first column named `name` among `columns`.
pub fn find_column<'a>(columns: &'a Vec<NamedColumn>, name: &str) -> (found: Option<&'a Column>)
    ensures
        match lookup(columns@, name@) {
            Some(column) => found == Some(&column),
            None => found is None,
        },
{
    let mut i: usize = 0;
    while i < columns.len()
        invariant
            i <= columns.len(),
            lookup(columns@, name@) == lookup_from(columns@, name@, i as int),
        decreases columns.len() - i,
    {
        if same_text(columns[i].name.as_str(), name) {
            return Some(&columns[i].column);
        }
        i += 1;
    }
    None
}

/// Returns the cell of `cells` at `row`.
pub fn value_at<T>(cells: &Vec<Option<T>>, row: usize) -> (value: Option<&T>)
    ensures
        match cell(cells@, row as int) {
            Some(v) => value == Some(&v),
            None => value is None,
        },
{
    if row < cells.len() {
        match &cells[row] {
            Some(v) => Some(v),
            None => None,
        }
    } else {
        None
    }
}

impl<T> Dictionary<T> {
    /// The value that the cell at `row` stands for: the dictionary entry at
    /// the cell's key. `None` where the row is outside the column, the key is
    /// null or outside the dictionary, or the entry is null.
    pub open spec fn resolve(self, row: int) -> Option<T> {
        match cell(self.keys@, row) {
            Some(key) => cell(self.values@, key as int),
            None => None,
        }
    }

    /// Encodes `values` as a column with one dictionary entry per row, so that
    /// every row reads back as the value it was given. A column of more rows
    /// than there are keys cannot be encoded.
    pub fn encode(values: Vec<Option<T>>) -> (encoded: Option<Dictionary<T>>)
        ensures
            encoded is Some <==> values@.len() <= u16::MAX + 1,
            match encoded {
                Some(dictionary) => {
                    &&& dictionary.values@ == values@
                    &&& dictionary.keys@.len() == values@.len()
                    &&& forall|row: int|
                        0 <= row < values@.len() ==> #[trigger] dictionary.keys@[row] == Some(
                            row as u16,
                        )
                    &&& forall|row: int| #[trigger] dictionary.resolve(row) == cell(values@, row)
                },
                None => true,
            },
    {
        if values.len() > 65536 {
            return None;
        }
        let mut keys: Vec<Option<u16>> = Vec::new();
        let mut row: usize = 0;
        while row < values.len()
            invariant
                row <= values.len() <= 65536,
                keys@.len() == row,
                forall|i: int| 0 <= i < row ==> #[trigger] keys@[i] == Some(i as u16),
            decreases values.len() - row,
        {
            keys.push(Some(row as u16));
            row += 1;
        }
        let dictionary = Dictionary { keys, values };
        assert forall|r: int| #[trigger] dictionary.resolve(r) == cell(values@, r) by {
            if 0 <= r < values@.len() {
                assert(dictionary.keys@[r] == Some(r as u16));
            }
        }
        Some(dictionary)
    }

    /// Returns the value that the cell at `row` stands for.
    pub fn value_at(&self, row: usize) -> (value: Option<&T>)
        ensures
            match self.resolve(row as int) {
                Some(v) => value == Some(&v),
                None => value is None,
            },
    {
        match value_at(&self.keys, row) {
            Some(key) => value_at(&self.values, *key as usize),
            None => None,
        }
    }
}

impl Column {
    /// Narrows to a timestamp column.
    pub fn as_timestamp(&self) -> (cells: Option<&Vec<Option<i64>>>)
        ensures
            match *self {
                Column::Timestamp(c) => cells == Some(&c),
                _ => cells is None,
            },
    {
        match self {
            Column::Timestamp(c) => Some(c),
            _ => None,
        }
    }

    /// Narrows to a column of unsigned 8-bit integers.
    pub fn as_u8(&self) -> (cells: Option<&Vec<Option<u8>>>)
        ensures
            match *self {
                Column::UInt8(c) => cells == Some(&c),
                _ => cells is None,
            },
    {
        match self {
            Column::UInt8(c) => Some(c),
            _ => None,
        }
    }

    /// Narrows to a column of unsigned 16-bit integers.
    pub fn as_u16(&self) -> (cells: Option<&Vec<Option<u16>>>)
        ensures
            match *self {
                Column::UInt16(c) => cells == Some(&c),
                _ => cells is None,
            },
    {
        match self {
            Column::UInt16(c) => Some(c),
            _ => None,
        }
    }

    /// Narrows to a column of unsigned 32-bit integers.
    pub fn as_u32(&self) -> (cells: Option<&Vec<Option<u32>>>)
        ensures
            match *self {
                Column::UInt32(c) => cells == Some(&c),
                _ => cells is None,
            },
    {
        match self {
            Column::UInt32(c) => Some(c),
            _ => None,
        }
    }

    /// Narrows to a column of raw bytes.
    pub fn as_binary(&self) -> (cells: Option<&Vec<Option<Vec<u8>>>>)
        ensures
            match *self {
                Column::Binary(c) => cells == Some(&c),
                _ => cells is None,
            },
    {
        match self {
            Column::Binary(c) => Some(c),
            _ => None,
        }
    }

    /// Narrows to a column of dictionary-encoded text.
    pub fn as_string_dictionary(&self) -> (dictionary: Option<&Dictionary<String>>)
        ensures
            match *self {
                Column::StringDictionary(d) => dictionary == Some(&d),
                _ => dictionary is None,
            },
    {
        match self {
            Column::StringDictionary(d) => Some(d),
            _ => None,
        }
    }

    /// Narrows to a column of dictionary-encoded signed 32-bit integers.
    pub fn as_int32_dictionary(&self) -> (dictionary: Option<&Dictionary<i32>>)
        ensures
            match *self {
                Column::Int32Dictionary(d) => dictionary == Some(&d),
                _ => dictionary is None,
            },
    {
        match self {
            Column::Int32Dictionary(d) => Some(d),
            _ => None,
        }
    }

    /// Narrows to a column of dictionary-encoded signed 64-bit integers.
    pub fn as_int_dictionary(&self) -> (dictionary: Option<&Dictionary<i64>>)
        ensures
            match *self {
                Column::Int64Dictionary(d) => dictionary == Some(&d),
                _ => dictionary is None,
            },
    {
        match self {
            Column::Int64Dictionary(d) => Some(d),
            _ => None,
        }
    }

    /// The sub-column named `name` of a nested structure.
    pub open spec fn spec_field(self, name: Seq<char>) -> Option<Column> {
        match self {
            Column::Struct(fields) => lookup(fields@, name),
            _ => None,
        }
    }

    /// Returns the sub-column named `name`, if this is a nested structure that
    /// has one.
    pub fn field(&self, name: &str) -> (found: Option<&Column>)
        ensures
            match self.spec_field(name@) {
                Some(column) => found == Some(&column),
                None => found is None,
            },
    {
        match self {
            Column::Struct(fields) => find_column(fields, name),
            _ => None,
        }
    }
}

impl Table {
    /// The first column named `name`.
    pub open spec fn spec_column(self, name: Seq<char>) -> Option<Column> {
        lookup(self.columns@, name)
    }

    /// Returns the first column named `name`.
    pub fn column(&self, name: &str) -> (found: Option<&Column>)
        ensures
            match self.spec_column(name@) {
                Some(column) => found == Some(&column),
                None => found is None,
            },
    {
        find_column(&self.columns, name)
    }
}

} // verus!
