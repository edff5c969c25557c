//! The attribute joiner: one scan of an attribute table yields, for every
//! parent id, the attributes of the rows that name it, in row order.

use vstd::prelude::*;
use std::collections::HashMap;
use crate::column::{cell, value_at, Column, Dictionary, Table};

verus! {

broadcast use vstd::std_specs::hash::group_hash_axioms;

/// Name of the column that holds a row's parent id.
pub const PARENT_ID: &'static str = "parent_id";

/// Name of the column that holds a row's attribute key.
pub const KEY: &'static str = "key";

/// Name of the column that holds a row's type tag.
pub const TYPE: &'static str = "type";

/// Name of the column that holds the value of a text attribute.
pub const STR: &'static str = "str";

/// Name of the column that holds the value of an integer attribute.
pub const INT: &'static str = "int";

/// Type tag of a text attribute.
pub const TYPE_STR: u8 = 1;

/// Type tag of an integer attribute.
pub const TYPE_INT: u8 = 2;

/// The value of an attribute.
#[derive(Debug, Clone, PartialEq, Eq)]
pub enum AttributeValue {
    /// Text.
    String(String),
    /// A signed 64-bit integer.
    Int(i64),
}

/// A key and its value.
#[derive(Debug, Clone, PartialEq, Eq)]
pub struct Attribute {
    /// The attribute's key.
    pub key: String,
    /// The attribute's value.
    pub value: AttributeValue,
}

impl AttributeValue {
    /// Returns a copy of this value.
    pub fn duplicate(&self) -> (copy: AttributeValue)
        ensures
            copy == *self,
    {
        match self {
            AttributeValue::String(text) => AttributeValue::String(text.clone()),
            AttributeValue::Int(number) => AttributeValue::Int(*number),
        }
    }
}

impl Attribute {
    /// Returns a copy of this attribute.
    pub fn duplicate(&self) -> (copy: Attribute)
        ensures
            copy == *self,
    {
        Attribute { key: self.key.clone(), value: self.value.duplicate() }
    }
}

/// The parent id in row `row` of an attribute table.
pub open spec fn row_parent(table: Table, row: int) -> Option<u16> {
    match table.spec_column(PARENT_ID@) {
        Some(Column::UInt16(cells)) => cell(cells@, row),
        _ => None,
    }
}

/// The attribute key in row `row` of an attribute table.
pub open spec fn row_key(table: Table, row: int) -> Option<String> {
    match table.spec_column(KEY@) {
        Some(Column::StringDictionary(keys)) => keys.resolve(row),
        _ => None,
    }
}

/// The type tag in row `row` of an attribute table.
pub open spec fn row_type(table: Table, row: int) -> Option<u8> {
    match table.spec_column(TYPE@) {
        Some(Column::UInt8(cells)) => cell(cells@, row),
        _ => None,
    }
}

/// The text in row `row` of an attribute table's text column.
pub open spec fn row_str(table: Table, row: int) -> Option<String> {
    match table.spec_column(STR@) {
        Some(Column::StringDictionary(texts)) => texts.resolve(row),
        _ => None,
    }
}

/// The integer in row `row` of an attribute table's integer column.
pub open spec fn row_int(table: Table, row: int) -> Option<i64> {
    match table.spec_column(INT@) {
        Some(Column::Int64Dictionary(numbers)) => numbers.resolve(row),
        _ => None,
    }
}

/// The attribute value in row `row`: the column that the type tag selects
/// supplies it, and a tag other than text or integer selects none.
pub open spec fn row_value(table: Table, row: int) -> Option<AttributeValue> {
    match row_type(table, row) {
        Some(tag) => if tag == TYPE_STR {
            match row_str(table, row) {
                Some(text) => Some(AttributeValue::String(text)),
                None => None,
            }
        } else if tag == TYPE_INT {
            match row_int(table, row) {
                Some(number) => Some(AttributeValue::Int(number)),
                None => None,
            }
        } else {
            None
        },
        None => None,
    }
}

/// What row `row` of an attribute table contributes: the parent it belongs to
/// and the attribute it holds. A row whose parent id, key or value does not
/// resolve contributes nothing.
pub open spec fn row_entry(table: Table, row: int) -> Option<(u16, Attribute)> {
    match (row_parent(table, row), row_key(table, row), row_value(table, row)) {
        (Some(parent), Some(key), Some(value)) => Some((parent, Attribute { key, value })),
        _ => None,
    }
}

/// The attributes that the first `rows` rows of `table` give to `parent`, in
/// row order.
pub open spec fn joined(table: Table, parent: u16, rows: nat) -> Seq<Attribute>
    decreases rows,
{
    if rows == 0 {
        Seq::empty()
    } else {
        let earlier = joined(table, parent, (rows - 1) as nat);
        match row_entry(table, rows - 1) {
            Some((p, attribute)) => if p == parent {
                earlier.push(attribute)
            } else {
                earlier
            },
            None => earlier,
        }
    }
}

/// Whether row `row` names a parent and a key but carries a type tag that
/// selects no value: such a row is dropped for its type alone.
pub open spec fn row_is_unknown_typed(table: Table, row: int) -> bool {
    &&& row_parent(table, row) is Some
    &&& row_key(table, row) is Some
    &&& match row_type(table, row) {
        Some(tag) => tag != TYPE_STR && tag != TYPE_INT,
        None => false,
    }
}

/// How many of the first `rows` rows of `table` are dropped for their type.
pub open spec fn unknown_typed(table: Table, rows: nat) -> nat
    decreases rows,
{
    if rows == 0 {
        0
    } else if row_is_unknown_typed(table, rows - 1) {
        unknown_typed(table, (rows - 1) as nat) + 1
    } else {
        unknown_typed(table, (rows - 1) as nat)
    }
}

/// The list that `lists` holds for `parent`; empty where it holds none.
pub open spec fn listed(lists: Map<u16, Vec<Attribute>>, parent: u16) -> Seq<Attribute> {
    if lists.contains_key(parent) {
        lists[parent]@
    } else {
        Seq::empty()
    }
}

/// The attributes of an attribute table, grouped by parent id.
#[derive(Debug)]
pub struct ParentIndex {
    lists: HashMap<u16, Vec<Attribute>>,
    dropped: usize,
}

/// The column handles that reading one row of an attribute table needs.
struct AttributeColumns<'a> {
    parents: Option<&'a Vec<Option<u16>>>,
    keys: Option<&'a Dictionary<String>>,
    types: Option<&'a Vec<Option<u8>>>,
    texts: Option<&'a Dictionary<String>>,
    numbers: Option<&'a Dictionary<i64>>,
}

impl<'a> AttributeColumns<'a> {
    /// The handles are those of `table`'s columns.
    spec fn of(self, table: Table) -> bool {
        &&& match table.spec_column(PARENT_ID@) {
            Some(Column::UInt16(cells)) => self.parents == Some(&cells),
            _ => self.parents is None,
        }
        &&& match table.spec_column(KEY@) {
            Some(Column::StringDictionary(keys)) => self.keys == Some(&keys),
            _ => self.keys is None,
        }
        &&& match table.spec_column(TYPE@) {
            Some(Column::UInt8(cells)) => self.types == Some(&cells),
            _ => self.types is None,
        }
        &&& match table.spec_column(STR@) {
            Some(Column::StringDictionary(texts)) => self.texts == Some(&texts),
            _ => self.texts is None,
        }
        &&& match table.spec_column(INT@) {
            Some(Column::Int64Dictionary(numbers)) => self.numbers == Some(&numbers),
            _ => self.numbers is None,
        }
    }

    fn open(table: &'a Table) -> (columns: Self)
        ensures
            columns.of(*table),
    {
        AttributeColumns {
            parents: match table.column(PARENT_ID) {
                Some(column) => column.as_u16(),
                None => None,
            },
            keys: match table.column(KEY) {
                Some(column) => column.as_string_dictionary(),
                None => None,
            },
            types: match table.column(TYPE) {
                Some(column) => column.as_u8(),
                None => None,
            },
            texts: match table.column(STR) {
                Some(column) => column.as_string_dictionary(),
                None => None,
            },
            numbers: match table.column(INT) {
                Some(column) => column.as_int_dictionary(),
                None => None,
            },
        }
    }

    fn value(&self, row: usize, Ghost(table): Ghost<Table>) -> (value: Option<AttributeValue>)
        requires
            self.of(table),
        ensures
            value == row_value(table, row as int),
    {
        let tag = match self.types {
            Some(cells) => value_at(cells, row),
            None => None,
        };
        match tag {
            Some(tag) => if *tag == TYPE_STR {
                match self.texts {
                    Some(texts) => match texts.value_at(row) {
                        Some(text) => Some(AttributeValue::String(text.clone())),
                        None => None,
                    },
                    None => None,
                }
            } else if *tag == TYPE_INT {
                match self.numbers {
                    Some(numbers) => match numbers.value_at(row) {
                        Some(number) => Some(AttributeValue::Int(*number)),
                        None => None,
                    },
                    None => None,
                }
            } else {
                None
            },
            None => None,
        }
    }

    fn is_unknown_typed(&self, row: usize, Ghost(table): Ghost<Table>) -> (unknown: bool)
        requires
            self.of(table),
        ensures
            unknown == row_is_unknown_typed(table, row as int),
    {
        let parent = match self.parents {
            Some(cells) => value_at(cells, row),
            None => None,
        };
        let key = match self.keys {
            Some(keys) => keys.value_at(row),
            None => None,
        };
        let tag = match self.types {
            Some(cells) => value_at(cells, row),
            None => None,
        };
        match (parent, key, tag) {
            (Some(_), Some(_), Some(tag)) => *tag != TYPE_STR && *tag != TYPE_INT,
            _ => false,
        }
    }

    fn entry(&self, row: usize, Ghost(table): Ghost<Table>) -> (entry: Option<(u16, Attribute)>)
        requires
            self.of(table),
        ensures
            entry == row_entry(table, row as int),
    {
        let parent = match self.parents {
            Some(cells) => value_at(cells, row),
            None => None,
        };
        let parent = match parent {
            Some(parent) => *parent,
            None => { return None; },
        };
        let key = match self.keys {
            Some(keys) => keys.value_at(row),
            None => None,
        };
        let key = match key {
            Some(key) => key,
            None => { return None; },
        };
        match self.value(row, Ghost(table)) {
            Some(value) => Some((parent, Attribute { key: key.clone(), value })),
            None => None,
        }
    }
}

impl ParentIndex {
    #[verifier::type_invariant]
    spec fn no_list_is_empty(self) -> bool {
        forall|parent: u16| #[trigger]
            self.lists@.contains_key(parent) ==> self.lists@[parent]@.len() > 0
    }

    /// The attributes held for `parent`, in the order in which their rows were
    /// scanned; empty where no row names `parent`.
    pub closed spec fn attributes_of(self, parent: u16) -> Seq<Attribute> {
        listed(self.lists@, parent)
    }

    /// Number of rows that were dropped because their type tag selects no
    /// value.
    pub closed spec fn spec_unknown_typed(self) -> nat {
        self.dropped as nat
    }

    /// Returns the number of rows that were dropped because their type tag
    /// selects no value.
    pub fn unknown_typed(&self) -> (count: usize)
        ensures
            count == self.spec_unknown_typed(),
    {
        self.dropped
    }

    /// Returns the attributes held for `parent`, if there are any.
    pub fn get(&self, parent: u16) -> (found: Option<&Vec<Attribute>>)
        ensures
            found is Some <==> self.attributes_of(parent).len() > 0,
            match found {
                Some(list) => list@ == self.attributes_of(parent),
                None => true,
            },
    {
        proof {
            use_type_invariant(self);
        }
        self.lists.get(&parent)
    }

    /// Appends copies of the attributes held for `parent` to `target`.
    pub fn append_to(&self, parent: u16, target: &mut Vec<Attribute>)
        ensures
            final(target)@ == old(target)@ + self.attributes_of(parent),
    {
        match self.get(parent) {
            Some(list) => {
                let mut i: usize = 0;
                while i < list.len()
                    invariant
                        i <= list.len(),
                        list@ == self.attributes_of(parent),
                        target@ == old(target)@ + list@.subrange(0, i as int),
                    decreases list.len() - i,
                {
                    target.push(list[i].duplicate());
                    i += 1;
                    assert(list@.subrange(0, i as int) == list@.subrange(0, i - 1).push(
                        list@[i - 1],
                    ));
                }
                assert(list@.subrange(0, i as int) == list@);
            },
            None => {
                assert(self.attributes_of(parent) =~= Seq::<Attribute>::empty());
                assert(old(target)@ + Seq::<Attribute>::empty() == old(target)@);
            },
        }
    }
}

/// Scans `table` once and groups its attributes by parent id.
///
/// A row is skipped where its parent id is null, its key does not resolve, or
/// its type tag selects no value. Every other row appends its attribute to
/// the list of its parent. Rows skipped for their type tag alone are counted.
pub fn build_parent_index(table: &Table) -> (index: ParentIndex)
    ensures
        forall|parent: u16|
            #[trigger] index.attributes_of(parent) == joined(
                *table,
                parent,
                table.row_count as nat,
            ),
        index.spec_unknown_typed() == unknown_typed(*table, table.row_count as nat),
{
    let columns = AttributeColumns::open(table);
    let mut lists: HashMap<u16, Vec<Attribute>> = HashMap::new();
    let mut dropped: usize = 0;
    let mut row: usize = 0;
    while row < table.row_count
        invariant
            row <= table.row_count,
            columns.of(*table),
            forall|parent: u16| #[trigger] listed(lists@, parent) == joined(*table, parent, row as nat),
            forall|parent: u16| #[trigger] lists@.contains_key(parent) ==> lists@[parent]@.len() > 0,
            dropped == unknown_typed(*table, row as nat),
            dropped <= row,
        decreases table.row_count - row,
    {
        let ghost before = lists@;
        if columns.is_unknown_typed(row, Ghost(*table)) {
            dropped += 1;
        }
        match columns.entry(row, Ghost(*table)) {
            Some((parent, attribute)) => {
                let mut list = match lists.remove(&parent) {
                    Some(list) => list,
                    None => Vec::new(),
                };
                list.push(attribute);
                lists.insert(parent, list);
                assert forall|p: u16| #[trigger]
                    listed(lists@, p) == joined(*table, p, (row + 1) as nat) by {
                    assert(listed(before, p) == joined(*table, p, row as nat));
                }
            },
            None => {
                assert forall|p: u16| #[trigger]
                    listed(lists@, p) == joined(*table, p, (row + 1) as nat) by {
                    assert(listed(before, p) == joined(*table, p, row as nat));
                }
            },
        }
        row += 1;
    }
    ParentIndex { lists, dropped }
}

/// The attributes that the first `rows` rows of `table` give to `parent`, were
/// the row `passed` passed over.
pub open spec fn joined_without(table: Table, parent: u16, rows: nat, passed: int) -> Seq<
    Attribute,
>
    decreases rows,
{
    if rows == 0 {
        Seq::empty()
    } else {
        let earlier = joined_without(table, parent, (rows - 1) as nat, passed);
        if rows - 1 == passed {
            earlier
        } else {
            match row_entry(table, rows - 1) {
                Some((p, attribute)) => if p == parent {
                    earlier.push(attribute)
                } else {
                    earlier
                },
                None => earlier,
            }
        }
    }
}

/// A row gives nothing to a parent that it does not name: the attributes of
/// `parent` are what they are with that row passed over. This holds of every
/// row whose parent id is null, and of every row that names another parent.
pub proof fn lemma_row_reaches_its_parent_only(table: Table, parent: u16, rows: nat, passed: int)
    requires
        row_parent(table, passed) != Some(parent),
    ensures
        joined(table, parent, rows) == joined_without(table, parent, rows, passed),
    decreases rows,
{
    if rows > 0 {
        lemma_row_reaches_its_parent_only(table, parent, (rows - 1) as nat, passed);
    }
}

/// A row whose key or value does not resolve gives nothing to any parent.
pub proof fn lemma_unresolved_row_adds_nothing(table: Table, parent: u16, rows: nat, passed: int)
    requires
        row_key(table, passed) is None || row_value(table, passed) is None,
    ensures
        joined(table, parent, rows) == joined_without(table, parent, rows, passed),
    decreases rows,
{
    if rows > 0 {
        lemma_unresolved_row_adds_nothing(table, parent, (rows - 1) as nat, passed);
    }
}

/// Every attribute of a parent comes from a row that names that parent, and
/// the attributes stand in the order of their rows.
pub proof fn lemma_joined_in_row_order(table: Table, parent: u16, rows: nat) -> (origin: Seq<int>)
    ensures
        origin.len() == joined(table, parent, rows).len(),
        forall|i: int|
            0 <= i < origin.len() ==> 0 <= #[trigger] origin[i] < rows && row_entry(
                table,
                origin[i],
            ) == Some((parent, joined(table, parent, rows)[i])),
        forall|i: int, j: int| 0 <= i < j < origin.len() ==> origin[i] < origin[j],
    decreases rows,
{
    if rows == 0 {
        Seq::empty()
    } else {
        let earlier = lemma_joined_in_row_order(table, parent, (rows - 1) as nat);
        match row_entry(table, rows - 1) {
            Some((p, attribute)) => if p == parent {
                earlier.push(rows - 1)
            } else {
                earlier
            },
            None => earlier,
        }
    }
}

} // verus!
