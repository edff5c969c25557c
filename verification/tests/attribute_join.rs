use geneva_exporter::attributes::{build_parent_index, Attribute, AttributeValue};
use geneva_exporter::column::{Column, Dictionary, NamedColumn, Table};

fn named(name: &str, column: Column) -> NamedColumn {
    NamedColumn { name: name.to_string(), column }
}

fn texts(values: &[Option<&str>]) -> Column {
    let values: Vec<Option<String>> = values.iter().map(|v| v.map(|s| s.to_string())).collect();
    Column::StringDictionary(Dictionary::encode(values).unwrap())
}

fn numbers(values: &[Option<i64>]) -> Column {
    Column::Int64Dictionary(Dictionary::encode(values.to_vec()).unwrap())
}

fn string_attribute(key: &str, value: &str) -> Attribute {
    Attribute { key: key.to_string(), value: AttributeValue::String(value.to_string()) }
}

fn int_attribute(key: &str, value: i64) -> Attribute {
    Attribute { key: key.to_string(), value: AttributeValue::Int(value) }
}

/// Rows: (parent, key, type tag, text, integer).
fn attribute_table(
    rows: &[(Option<u16>, Option<&str>, Option<u8>, Option<&str>, Option<i64>)],
) -> Table {
    Table {
        row_count: rows.len(),
        columns: vec![
            named("parent_id", Column::UInt16(rows.iter().map(|r| r.0).collect())),
            named("key", texts(&rows.iter().map(|r| r.1).collect::<Vec<_>>())),
            named("type", Column::UInt8(rows.iter().map(|r| r.2).collect())),
            named("str", texts(&rows.iter().map(|r| r.3).collect::<Vec<_>>())),
            named("int", numbers(&rows.iter().map(|r| r.4).collect::<Vec<_>>())),
        ],
    }
}

#[test]
fn attributes_are_grouped_by_parent_in_row_order() {
    let table = attribute_table(&[
        (Some(1), Some("b"), Some(1), Some("one"), None),
        (Some(0), Some("a"), Some(2), None, Some(42)),
        (Some(1), Some("a"), Some(2), None, Some(-7)),
        (Some(0), Some("z"), Some(1), Some("last"), None),
    ]);
    let index = build_parent_index(&table);
    assert_eq!(
        index.get(0),
        Some(&vec![int_attribute("a", 42), string_attribute("z", "last")])
    );
    assert_eq!(
        index.get(1),
        Some(&vec![string_attribute("b", "one"), int_attribute("a", -7)])
    );
    assert_eq!(index.get(2), None);
    assert_eq!(index.unknown_typed(), 0);
}

#[test]
fn empty_attribute_table_gives_an_empty_index() {
    let table = attribute_table(&[]);
    let index = build_parent_index(&table);
    assert_eq!(index.get(0), None);
    assert_eq!(index.get(u16::MAX), None);
    assert_eq!(index.unknown_typed(), 0);
}

#[test]
fn row_with_null_parent_is_skipped() {
    let table = attribute_table(&[
        (None, Some("lost"), Some(1), Some("x"), None),
        (Some(3), Some("kept"), Some(1), Some("y"), None),
    ]);
    let index = build_parent_index(&table);
    assert_eq!(index.get(3), Some(&vec![string_attribute("kept", "y")]));
    for parent in [0u16, 1, 2, 4, u16::MAX] {
        assert_eq!(index.get(parent), None);
    }
}

#[test]
fn row_with_unresolved_key_is_skipped() {
    let table = attribute_table(&[
        (Some(0), None, Some(1), Some("x"), None),
        (Some(0), Some("kept"), Some(2), None, Some(1)),
    ]);
    let index = build_parent_index(&table);
    assert_eq!(index.get(0), Some(&vec![int_attribute("kept", 1)]));
}

#[test]
fn row_with_unknown_type_tag_is_skipped_and_counted() {
    let table = attribute_table(&[
        (Some(0), Some("double"), Some(3), Some("x"), Some(1)),
        (Some(0), Some("empty"), Some(0), Some("x"), Some(1)),
        (Some(0), Some("kept"), Some(1), Some("y"), None),
        (Some(0), Some("bytes"), Some(255), None, None),
        (None, Some("no parent"), Some(9), None, None),
        (Some(0), None, Some(9), None, None),
    ]);
    let index = build_parent_index(&table);
    assert_eq!(index.get(0), Some(&vec![string_attribute("kept", "y")]));
    assert_eq!(index.unknown_typed(), 3);
}

#[test]
fn row_with_null_type_tag_is_skipped() {
    let table = attribute_table(&[(Some(0), Some("k"), None, Some("x"), Some(1))]);
    let index = build_parent_index(&table);
    assert_eq!(index.get(0), None);
    assert_eq!(index.unknown_typed(), 0);
}

#[test]
fn value_comes_from_the_column_that_the_tag_selects() {
    let table = attribute_table(&[
        (Some(0), Some("text"), Some(1), Some("s"), Some(5)),
        (Some(0), Some("number"), Some(2), Some("s"), Some(5)),
    ]);
    let index = build_parent_index(&table);
    assert_eq!(
        index.get(0),
        Some(&vec![string_attribute("text", "s"), int_attribute("number", 5)])
    );
}

#[test]
fn row_whose_selected_value_is_null_is_skipped() {
    let table = attribute_table(&[
        (Some(0), Some("text"), Some(1), None, Some(5)),
        (Some(0), Some("number"), Some(2), Some("s"), None),
    ]);
    let index = build_parent_index(&table);
    assert_eq!(index.get(0), None);
    assert_eq!(index.unknown_typed(), 0);
}

#[test]
fn duplicate_keys_are_kept() {
    let table = attribute_table(&[
        (Some(0), Some("k"), Some(1), Some("first"), None),
        (Some(0), Some("k"), Some(1), Some("second"), None),
    ]);
    let index = build_parent_index(&table);
    assert_eq!(
        index.get(0),
        Some(&vec![string_attribute("k", "first"), string_attribute("k", "second")])
    );
}

#[test]
fn table_without_parent_column_gives_an_empty_index() {
    let table = Table {
        row_count: 1,
        columns: vec![
            named("key", texts(&[Some("k")])),
            named("type", Column::UInt8(vec![Some(1)])),
            named("str", texts(&[Some("v")])),
        ],
    };
    let index = build_parent_index(&table);
    assert_eq!(index.get(0), None);
}

#[test]
fn parent_column_of_another_layout_gives_an_empty_index() {
    let table = Table {
        row_count: 1,
        columns: vec![
            named("parent_id", Column::UInt32(vec![Some(0)])),
            named("key", texts(&[Some("k")])),
            named("type", Column::UInt8(vec![Some(1)])),
            named("str", texts(&[Some("v")])),
        ],
    };
    let index = build_parent_index(&table);
    assert_eq!(index.get(0), None);
}

#[test]
fn missing_value_column_drops_only_the_rows_that_need_it() {
    let table = Table {
        row_count: 2,
        columns: vec![
            named("parent_id", Column::UInt16(vec![Some(0), Some(0)])),
            named("key", texts(&[Some("text"), Some("number")])),
            named("type", Column::UInt8(vec![Some(1), Some(2)])),
            named("str", texts(&[Some("v"), None])),
        ],
    };
    let index = build_parent_index(&table);
    assert_eq!(index.get(0), Some(&vec![string_attribute("text", "v")]));
}

#[test]
fn rows_past_the_row_count_are_not_scanned() {
    let mut table = attribute_table(&[
        (Some(0), Some("a"), Some(1), Some("x"), None),
        (Some(0), Some("b"), Some(1), Some("y"), None),
    ]);
    table.row_count = 1;
    let index = build_parent_index(&table);
    assert_eq!(index.get(0), Some(&vec![string_attribute("a", "x")]));
}

#[test]
fn columns_shorter_than_the_row_count_read_as_null() {
    let mut table = attribute_table(&[(Some(0), Some("a"), Some(1), Some("x"), None)]);
    table.row_count = 5;
    let index = build_parent_index(&table);
    assert_eq!(index.get(0), Some(&vec![string_attribute("a", "x")]));
}

#[test]
fn append_to_keeps_what_the_target_holds() {
    let table = attribute_table(&[
        (Some(7), Some("a"), Some(1), Some("x"), None),
        (Some(7), Some("b"), Some(2), None, Some(2)),
    ]);
    let index = build_parent_index(&table);
    let mut target = vec![int_attribute("own", 1)];
    index.append_to(7, &mut target);
    assert_eq!(
        target,
        vec![int_attribute("own", 1), string_attribute("a", "x"), int_attribute("b", 2)]
    );
    index.append_to(8, &mut target);
    assert_eq!(target.len(), 3);
}

#[test]
fn attribute_duplicate_is_equal() {
    let text = string_attribute("k", "v");
    assert_eq!(text.duplicate(), text);
    let number = int_attribute("n", i64::MIN);
    assert_eq!(number.duplicate(), number);
    assert_eq!(number.value.duplicate(), AttributeValue::Int(i64::MIN));
}
