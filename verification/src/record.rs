//! The record materializer: one structured log record per row of a primary
//! table, with the attributes that two attribute tables hold for it.

use vstd::prelude::*;
use crate::attributes::{
    build_parent_index, joined, joined_without, lemma_row_reaches_its_parent_only, row_parent,
    Attribute, ParentIndex,
};
use crate::column::{cell, value_at, Column, Dictionary, Table};

verus! {

/// Name of the column that holds the event timestamp.
pub const TIME_UNIX_NANO: &'static str = "time_unix_nano";

/// Name of the column that holds the observed timestamp.
pub const OBSERVED_TIME_UNIX_NANO: &'static str = "observed_time_unix_nano";

/// Name of the column that holds the severity number.
pub const SEVERITY_NUMBER: &'static str = "severity_number";

/// Name of the column that holds the severity text.
pub const SEVERITY_TEXT: &'static str = "severity_text";

/// Name of the nested column that holds the body.
pub const BODY: &'static str = "body";

/// Name of the body's text sub-column.
pub const BODY_STR: &'static str = "str";

/// Name of the column that holds the trace id.
pub const TRACE_ID: &'static str = "trace_id";

/// Name of the column that holds the span id.
pub const SPAN_ID: &'static str = "span_id";

/// Name of the column that holds the flags.
pub const FLAGS: &'static str = "flags";

/// Name of the nested column that describes the resource.
pub const RESOURCE: &'static str = "resource";

/// Name of the resource's id sub-column.
pub const RESOURCE_ID: &'static str = "id";

/// The body of a log record.
#[derive(Debug, Clone, PartialEq, Eq)]
pub enum Body {
    /// Text.
    String(String),
}

/// One decoded log entry.
#[derive(Debug, Clone, PartialEq, Eq)]
pub struct LogRecord {
    /// When the event happened, in nanoseconds since the epoch.
    pub time_unix_nano: Option<i64>,
    /// When the event was observed, in nanoseconds since the epoch.
    pub observed_time_unix_nano: Option<i64>,
    /// Severity as a number.
    pub severity_number: Option<i32>,
    /// Severity as text.
    pub severity_text: Option<String>,
    /// The body.
    pub body: Option<Body>,
    /// The trace id; empty where the row has none.
    pub trace_id: Vec<u8>,
    /// The span id; empty where the row has none.
    pub span_id: Vec<u8>,
    /// The flags.
    pub flags: Option<u32>,
    /// The record's own attributes, then those of its resource.
    pub attributes: Vec<Attribute>,
    /// The event name.
    pub event_name: Option<String>,
}

/// What a log record holds, with its byte strings and attributes as sequences.
pub struct LogRecordView {
    /// When the event happened.
    pub time_unix_nano: Option<i64>,
    /// When the event was observed.
    pub observed_time_unix_nano: Option<i64>,
    /// Severity as a number.
    pub severity_number: Option<i32>,
    /// Severity as text.
    pub severity_text: Option<String>,
    /// The body.
    pub body: Option<Body>,
    /// The bytes of the trace id.
    pub trace_id: Seq<u8>,
    /// The bytes of the span id.
    pub span_id: Seq<u8>,
    /// The flags.
    pub flags: Option<u32>,
    /// The attributes, in order.
    pub attributes: Seq<Attribute>,
    /// The event name.
    pub event_name: Option<String>,
}

impl View for LogRecord {
    type V = LogRecordView;

    open spec fn view(&self) -> LogRecordView {
        LogRecordView {
            time_unix_nano: self.time_unix_nano,
            observed_time_unix_nano: self.observed_time_unix_nano,
            severity_number: self.severity_number,
            severity_text: self.severity_text,
            body: self.body,
            trace_id: self.trace_id@,
            span_id: self.span_id@,
            flags: self.flags,
            attributes: self.attributes@,
            event_name: self.event_name,
        }
    }
}

/// Why a batch could not be decoded.
#[derive(Debug, PartialEq, Eq, Structural, Clone, Copy)]
pub enum DecodeError {
    /// The batch holds no primary table.
    NoPrimaryData,
}

/// The timestamp in row `row` of the column named `name`.
pub open spec fn timestamp_at(table: Table, name: Seq<char>, row: int) -> Option<i64> {
    match table.spec_column(name) {
        Some(Column::Timestamp(cells)) => cell(cells@, row),
        _ => None,
    }
}

/// The severity number in row `row`.
pub open spec fn severity_number_at(table: Table, row: int) -> Option<i32> {
    match table.spec_column(SEVERITY_NUMBER@) {
        Some(Column::Int32Dictionary(numbers)) => numbers.resolve(row),
        _ => None,
    }
}

/// The severity text in row `row`.
pub open spec fn severity_text_at(table: Table, row: int) -> Option<String> {
    match table.spec_column(SEVERITY_TEXT@) {
        Some(Column::StringDictionary(texts)) => texts.resolve(row),
        _ => None,
    }
}

/// The sub-column named `field` of the nested column named `name`.
pub open spec fn nested(table: Table, name: Seq<char>, field: Seq<char>) -> Option<Column> {
    match table.spec_column(name) {
        Some(column) => column.spec_field(field),
        None => None,
    }
}

/// The body in row `row`.
pub open spec fn body_at(table: Table, row: int) -> Option<Body> {
    match nested(table, BODY@, BODY_STR@) {
        Some(Column::StringDictionary(texts)) => match texts.resolve(row) {
            Some(text) => Some(Body::String(text)),
            None => None,
        },
        _ => None,
    }
}

/// The bytes in row `row` of the column named `name`; empty where the column
/// is absent or the cell is null.
pub open spec fn bytes_at(table: Table, name: Seq<char>, row: int) -> Seq<u8> {
    match table.spec_column(name) {
        Some(Column::Binary(cells)) => match cell(cells@, row) {
            Some(bytes) => bytes@,
            None => Seq::empty(),
        },
        _ => Seq::empty(),
    }
}

/// The flags in row `row`.
pub open spec fn flags_at(table: Table, row: int) -> Option<u32> {
    match table.spec_column(FLAGS@) {
        Some(Column::UInt32(cells)) => cell(cells@, row),
        _ => None,
    }
}

/// The resource id in row `row`.
pub open spec fn resource_id_at(table: Table, row: int) -> Option<u16> {
    match nested(table, RESOURCE@, RESOURCE_ID@) {
        Some(Column::UInt16(cells)) => cell(cells@, row),
        _ => None,
    }
}

/// The attributes that `log_attrs` holds for row `row`: those of the rows
/// whose parent id is `row`, in their order.
pub open spec fn log_attributes_at(log_attrs: Option<Table>, row: int) -> Seq<Attribute> {
    match log_attrs {
        Some(attrs) => if 0 <= row <= u16::MAX {
            joined(attrs, row as u16, attrs.row_count as nat)
        } else {
            Seq::empty()
        },
        None => Seq::empty(),
    }
}

/// The attributes that `resource_attrs` holds for the resource of row `row`:
/// those of the rows whose parent id is the row's resource id, in their order.
pub open spec fn resource_attributes_at(
    primary: Table,
    resource_attrs: Option<Table>,
    row: int,
) -> Seq<Attribute> {
    match (resource_attrs, resource_id_at(primary, row)) {
        (Some(attrs), Some(id)) => joined(attrs, id, attrs.row_count as nat),
        _ => Seq::empty(),
    }
}

/// The log record that row `row` of `primary` stands for.
pub open spec fn record_at(
    primary: Table,
    log_attrs: Option<Table>,
    resource_attrs: Option<Table>,
    row: int,
) -> LogRecordView {
    LogRecordView {
        time_unix_nano: timestamp_at(primary, TIME_UNIX_NANO@, row),
        observed_time_unix_nano: timestamp_at(primary, OBSERVED_TIME_UNIX_NANO@, row),
        severity_number: severity_number_at(primary, row),
        severity_text: severity_text_at(primary, row),
        body: body_at(primary, row),
        trace_id: bytes_at(primary, TRACE_ID@, row),
        span_id: bytes_at(primary, SPAN_ID@, row),
        flags: flags_at(primary, row),
        attributes: log_attributes_at(log_attrs, row) + resource_attributes_at(
            primary,
            resource_attrs,
            row,
        ),
        event_name: None,
    }
}

/// The table behind an optional reference.
pub open spec fn owned(table: Option<&Table>) -> Option<Table> {
    match table {
        Some(table) => Some(*table),
        None => None,
    }
}

/// The column handles that reading one row of a primary table needs.
struct PrimaryColumns<'a> {
    time: Option<&'a Vec<Option<i64>>>,
    observed: Option<&'a Vec<Option<i64>>>,
    severity_number: Option<&'a Dictionary<i32>>,
    severity_text: Option<&'a Dictionary<String>>,
    body: Option<&'a Dictionary<String>>,
    trace_id: Option<&'a Vec<Option<Vec<u8>>>>,
    span_id: Option<&'a Vec<Option<Vec<u8>>>>,
    flags: Option<&'a Vec<Option<u32>>>,
    resource_id: Option<&'a Vec<Option<u16>>>,
}

/// Returns the timestamp column named `name`.
fn timestamps<'a>(table: &'a Table, name: &str) -> (cells: Option<&'a Vec<Option<i64>>>)
    ensures
        match table.spec_column(name@) {
            Some(Column::Timestamp(c)) => cells == Some(&c),
            _ => cells is None,
        },
{
    match table.column(name) {
        Some(column) => column.as_timestamp(),
        None => None,
    }
}

/// Returns the byte column named `name`.
fn binaries<'a>(table: &'a Table, name: &str) -> (cells: Option<&'a Vec<Option<Vec<u8>>>>)
    ensures
        match table.spec_column(name@) {
            Some(Column::Binary(c)) => cells == Some(&c),
            _ => cells is None,
        },
{
    match table.column(name) {
        Some(column) => column.as_binary(),
        None => None,
    }
}

/// Returns the sub-column named `field` of the nested column named `name`.
fn nested_column<'a>(table: &'a Table, name: &str, field: &str) -> (found: Option<&'a Column>)
    ensures
        match nested(*table, name@, field@) {
            Some(column) => found == Some(&column),
            None => found is None,
        },
{
    match table.column(name) {
        Some(column) => column.field(field),
        None => None,
    }
}

/// Returns a copy of the bytes in row `row` of `cells`.
fn bytes_of(cells: Option<&Vec<Option<Vec<u8>>>>, row: usize) -> (bytes: Vec<u8>)
    ensures
        bytes@ == match cells {
            Some(cells) => match cell(cells@, row as int) {
                Some(b) => b@,
                None => Seq::empty(),
            },
            None => Seq::empty(),
        },
{
    let found = match cells {
        Some(cells) => value_at(cells, row),
        None => None,
    };
    match found {
        Some(source) => {
            let mut bytes: Vec<u8> = Vec::new();
            let mut i: usize = 0;
            while i < source.len()
                invariant
                    i <= source.len(),
                    bytes@ == source@.subrange(0, i as int),
                decreases source.len() - i,
            {
                bytes.push(source[i]);
                i += 1;
                assert(source@.subrange(0, i as int) == source@.subrange(0, i - 1).push(
                    source@[i - 1],
                ));
            }
            assert(source@.subrange(0, i as int) == source@);
            bytes
        },
        None => Vec::new(),
    }
}

impl<'a> PrimaryColumns<'a> {
    /// The handles are those of `table`'s columns.
    spec fn of(self, table: Table) -> bool {
        &&& match table.spec_column(TIME_UNIX_NANO@) {
            Some(Column::Timestamp(c)) => self.time == Some(&c),
            _ => self.time is None,
        }
        &&& match table.spec_column(OBSERVED_TIME_UNIX_NANO@) {
            Some(Column::Timestamp(c)) => self.observed == Some(&c),
            _ => self.observed is None,
        }
        &&& match table.spec_column(SEVERITY_NUMBER@) {
            Some(Column::Int32Dictionary(d)) => self.severity_number == Some(&d),
            _ => self.severity_number is None,
        }
        &&& match table.spec_column(SEVERITY_TEXT@) {
            Some(Column::StringDictionary(d)) => self.severity_text == Some(&d),
            _ => self.severity_text is None,
        }
        &&& match nested(table, BODY@, BODY_STR@) {
            Some(Column::StringDictionary(d)) => self.body == Some(&d),
            _ => self.body is None,
        }
        &&& match table.spec_column(TRACE_ID@) {
            Some(Column::Binary(c)) => self.trace_id == Some(&c),
            _ => self.trace_id is None,
        }
        &&& match table.spec_column(SPAN_ID@) {
            Some(Column::Binary(c)) => self.span_id == Some(&c),
            _ => self.span_id is None,
        }
        &&& match table.spec_column(FLAGS@) {
            Some(Column::UInt32(c)) => self.flags == Some(&c),
            _ => self.flags is None,
        }
        &&& match nested(table, RESOURCE@, RESOURCE_ID@) {
            Some(Column::UInt16(c)) => self.resource_id == Some(&c),
            _ => self.resource_id is None,
        }
    }

    fn open(table: &'a Table) -> (columns: Self)
        ensures
            columns.of(*table),
    {
        PrimaryColumns {
            time: timestamps(table, TIME_UNIX_NANO),
            observed: timestamps(table, OBSERVED_TIME_UNIX_NANO),
            severity_number: match table.column(SEVERITY_NUMBER) {
                Some(column) => column.as_int32_dictionary(),
                None => None,
            },
            severity_text: match table.column(SEVERITY_TEXT) {
                Some(column) => column.as_string_dictionary(),
                None => None,
            },
            body: match nested_column(table, BODY, BODY_STR) {
                Some(column) => column.as_string_dictionary(),
                None => None,
            },
            trace_id: binaries(table, TRACE_ID),
            span_id: binaries(table, SPAN_ID),
            flags: match table.column(FLAGS) {
                Some(column) => column.as_u32(),
                None => None,
            },
            resource_id: match nested_column(table, RESOURCE, RESOURCE_ID) {
                Some(column) => column.as_u16(),
                None => None,
            },
        }
    }

    /// Returns the record of row `row`, without attributes.
    fn scalars(&self, row: usize, Ghost(table): Ghost<Table>) -> (record: LogRecord)
        requires
            self.of(table),
        ensures
            record@ == (LogRecordView {
                attributes: Seq::empty(),
                ..record_at(table, None, None, row as int)
            }),
    {
        LogRecord {
            time_unix_nano: match self.time {
                Some(cells) => match value_at(cells, row) {
                    Some(t) => Some(*t),
                    None => None,
                },
                None => None,
            },
            observed_time_unix_nano: match self.observed {
                Some(cells) => match value_at(cells, row) {
                    Some(t) => Some(*t),
                    None => None,
                },
                None => None,
            },
            severity_number: match self.severity_number {
                Some(numbers) => match numbers.value_at(row) {
                    Some(n) => Some(*n),
                    None => None,
                },
                None => None,
            },
            severity_text: match self.severity_text {
                Some(texts) => match texts.value_at(row) {
                    Some(text) => Some(text.clone()),
                    None => None,
                },
                None => None,
            },
            body: match self.body {
                Some(texts) => match texts.value_at(row) {
                    Some(text) => Some(Body::String(text.clone())),
                    None => None,
                },
                None => None,
            },
            trace_id: bytes_of(self.trace_id, row),
            span_id: bytes_of(self.span_id, row),
            flags: match self.flags {
                Some(cells) => match value_at(cells, row) {
                    Some(f) => Some(*f),
                    None => None,
                },
                None => None,
            },
            attributes: Vec::new(),
            event_name: None,
        }
    }

    /// Returns the resource id of row `row`.
    fn resource(&self, row: usize, Ghost(table): Ghost<Table>) -> (id: Option<u16>)
        requires
            self.of(table),
        ensures
            id == resource_id_at(table, row as int),
    {
        match self.resource_id {
            Some(cells) => match value_at(cells, row) {
                Some(id) => Some(*id),
                None => None,
            },
            None => None,
        }
    }
}

/// Groups the attributes of `table`, if there is one.
fn index_of(table: Option<&Table>) -> (index: Option<ParentIndex>)
    ensures
        match table {
            Some(t) => index is Some && forall|parent: u16|
                #[trigger] index->Some_0.attributes_of(parent) == joined(
                    *t,
                    parent,
                    t.row_count as nat,
                ),
            None => index is None,
        },
{
    match table {
        Some(t) => Some(build_parent_index(t)),
        None => None,
    }
}

/// Decodes a batch into one log record per row of its primary table, in row
/// order.
///
/// A field whose column is absent, of another layout, or null in a row is left
/// absent in that row's record. A record's attributes are those that
/// `log_attrs` holds for the row's index, followed by those that
/// `resource_attrs` holds for the row's resource id. The only failure is a
/// batch without primary table.
pub fn materialize(
    primary: Option<&Table>,
    log_attrs: Option<&Table>,
    resource_attrs: Option<&Table>,
) -> (result: Result<Vec<LogRecord>, DecodeError>)
    ensures
        match primary {
            Some(table) => {
                &&& result is Ok
                &&& result->Ok_0.len() == table.row_count
                &&& forall|row: int|
                    0 <= row < table.row_count ==> (#[trigger] result->Ok_0[row])@ == record_at(
                        *table,
                        owned(log_attrs),
                        owned(resource_attrs),
                        row,
                    )
            },
            None => result == Err::<Vec<LogRecord>, DecodeError>(DecodeError::NoPrimaryData),
        },
{
    let table = match primary {
        Some(table) => table,
        None => { return Err(DecodeError::NoPrimaryData); },
    };
    let columns = PrimaryColumns::open(table);
    let log_index = index_of(log_attrs);
    let resource_index = index_of(resource_attrs);
    let mut records: Vec<LogRecord> = Vec::new();
    let mut row: usize = 0;
    while row < table.row_count
        invariant
            row <= table.row_count,
            columns.of(*table),
            records.len() == row,
            match log_attrs {
                Some(t) => log_index is Some && forall|parent: u16|
                    #[trigger] log_index->Some_0.attributes_of(parent) == joined(
                        *t,
                        parent,
                        t.row_count as nat,
                    ),
                None => log_index is None,
            },
            match resource_attrs {
                Some(t) => resource_index is Some && forall|parent: u16|
                    #[trigger] resource_index->Some_0.attributes_of(parent) == joined(
                        *t,
                        parent,
                        t.row_count as nat,
                    ),
                None => resource_index is None,
            },
            forall|r: int|
                0 <= r < row ==> (#[trigger] records[r])@ == record_at(
                    *table,
                    owned(log_attrs),
                    owned(resource_attrs),
                    r,
                ),
        decreases table.row_count - row,
    {
        let mut record = columns.scalars(row, Ghost(*table));
        let ghost bare = record@;
        let mut attributes: Vec<Attribute> = Vec::new();
        match &log_index {
            Some(index) => {
                if row <= u16::MAX as usize {
                    index.append_to(row as u16, &mut attributes);
                }
            },
            None => {},
        }
        assert(attributes@ =~= log_attributes_at(owned(log_attrs), row as int));
        match &resource_index {
            Some(index) => {
                match columns.resource(row, Ghost(*table)) {
                    Some(id) => {
                        index.append_to(id, &mut attributes);
                    },
                    None => {},
                }
            },
            None => {},
        }
        assert(attributes@ =~= log_attributes_at(owned(log_attrs), row as int)
            + resource_attributes_at(*table, owned(resource_attrs), row as int));
        record.attributes = attributes;
        assert(record@ == record_at(*table, owned(log_attrs), owned(resource_attrs), row as int));
        records.push(record);
        row += 1;
    }
    Ok(records)
}

/// Within a record, the attributes of the row itself come first and those of
/// its resource follow them.
pub proof fn lemma_log_attributes_come_first(
    primary: Table,
    log_attrs: Option<Table>,
    resource_attrs: Option<Table>,
    row: int,
)
    ensures
        ({
            let attributes = record_at(primary, log_attrs, resource_attrs, row).attributes;
            let own = log_attributes_at(log_attrs, row);
            let shared = resource_attributes_at(primary, resource_attrs, row);
            &&& attributes.len() == own.len() + shared.len()
            &&& attributes.subrange(0, own.len() as int) == own
            &&& attributes.subrange(own.len() as int, attributes.len() as int) == shared
        }),
{
    let attributes = record_at(primary, log_attrs, resource_attrs, row).attributes;
    let own = log_attributes_at(log_attrs, row);
    let shared = resource_attributes_at(primary, resource_attrs, row);
    assert(attributes.subrange(0, own.len() as int) =~= own);
    assert(attributes.subrange(own.len() as int, attributes.len() as int) =~= shared);
}

/// The fields of a record other than its attributes are the same whatever
/// attribute tables the batch holds.
pub proof fn lemma_fields_ignore_attribute_tables(
    primary: Table,
    log_attrs: Option<Table>,
    resource_attrs: Option<Table>,
    row: int,
)
    ensures
        record_at(primary, log_attrs, resource_attrs, row) == (LogRecordView {
            attributes: record_at(primary, log_attrs, resource_attrs, row).attributes,
            ..record_at(primary, None, None, row)
        }),
{
}

/// A row of the log attribute table whose parent id is null, or is no row of
/// the primary table, gives no attribute to any record: every record's own
/// attributes are what they are with that row passed over.
pub proof fn lemma_stray_log_attribute_row(
    primary: Table,
    log_attrs: Table,
    stray: int,
    row: int,
)
    requires
        0 <= row < primary.row_count,
        match row_parent(log_attrs, stray) {
            Some(parent) => parent >= primary.row_count,
            None => true,
        },
    ensures
        row <= u16::MAX ==> log_attributes_at(Some(log_attrs), row) == joined_without(
            log_attrs,
            row as u16,
            log_attrs.row_count as nat,
            stray,
        ),
        row > u16::MAX ==> log_attributes_at(Some(log_attrs), row) == Seq::<Attribute>::empty(),
{
    if row <= u16::MAX {
        lemma_row_reaches_its_parent_only(
            log_attrs,
            row as u16,
            log_attrs.row_count as nat,
            stray,
        );
    }
}

/// A row of the resource attribute table whose parent id is null, or is the
/// resource id of no row of the primary table, gives no attribute to any
/// record: every record's resource attributes are what they are with that row
/// passed over.
pub proof fn lemma_stray_resource_attribute_row(
    primary: Table,
    resource_attrs: Table,
    stray: int,
    row: int,
)
    requires
        0 <= row < primary.row_count,
        match row_parent(resource_attrs, stray) {
            Some(parent) => forall|r: int|
                0 <= r < primary.row_count ==> resource_id_at(primary, r) != Some(parent),
            None => true,
        },
    ensures
        resource_attributes_at(primary, Some(resource_attrs), row) == match resource_id_at(
            primary,
            row,
        ) {
            Some(id) => joined_without(resource_attrs, id, resource_attrs.row_count as nat, stray),
            None => Seq::empty(),
        },
{
    match resource_id_at(primary, row) {
        Some(id) => {
            lemma_row_reaches_its_parent_only(
                resource_attrs,
                id,
                resource_attrs.row_count as nat,
                stray,
            );
        },
        None => {},
    }
}

} // verus!
