use ndc_clickhouse_core::column_table::ColumnTable;
use ndc_clickhouse_core::introspection::{get_return_type_columns, ColumnInfo, TableInfo};

fn text(value: &str) -> String {
    value.to_string()
}

fn column(name: &str, data_type: &str) -> ColumnInfo {
    ColumnInfo {
        column_name: text(name),
        data_type: text(data_type),
        is_nullable: false,
        is_in_primary_key: false,
    }
}

fn table(columns: Vec<ColumnInfo>) -> TableInfo {
    TableInfo {
        table_name: text("t"),
        table_schema: text("default"),
        table_comment: None,
        primary_key: None,
        view_definition: String::new(),
        columns,
    }
}

fn table_of(entries: &[(&str, &str)]) -> ColumnTable {
    let mut columns = ColumnTable::new();
    for (name, data_type) in entries {
        columns.insert(text(name), text(data_type));
    }
    columns
}

#[test]
fn a_new_table_holds_nothing() {
    let columns = ColumnTable::new();
    assert_eq!(columns.get("a"), None);
    assert!(columns.entries().is_empty());
}

#[test]
fn what_is_put_in_is_found() {
    let columns = table_of(&[("a", "UInt8"), ("b", "String")]);
    assert_eq!(columns.get("a"), Some(&text("UInt8")));
    assert_eq!(columns.get("b"), Some(&text("String")));
    assert_eq!(columns.get("c"), None);
}

#[test]
fn a_name_put_in_again_takes_the_place_of_the_first() {
    let columns = table_of(&[("a", "UInt8"), ("b", "String"), ("a", "Int64")]);
    assert_eq!(columns.get("a"), Some(&text("Int64")));
    assert_eq!(columns.entries().len(), 2);
}

#[test]
fn tables_are_the_same_whatever_the_order() {
    let one = table_of(&[("a", "UInt8"), ("b", "String")]);
    let other = table_of(&[("b", "String"), ("a", "UInt8")]);
    assert!(one.same_as(&other));
    assert!(other.same_as(&one));
    assert!(one.same_as(&one));
    assert!(ColumnTable::new().same_as(&ColumnTable::new()));
}

#[test]
fn tables_differ_by_a_type_or_a_column() {
    let one = table_of(&[("a", "UInt8"), ("b", "String")]);
    assert!(!one.same_as(&table_of(&[("a", "UInt8"), ("b", "Date")])));
    assert!(!one.same_as(&table_of(&[("a", "UInt8")])));
    assert!(!one.same_as(&table_of(&[("a", "UInt8"), ("b", "String"), ("c", "Date")])));
    assert!(!one.same_as(&table_of(&[("a", "UInt8"), ("c", "String")])));
    assert!(!one.same_as(&ColumnTable::new()));
}

#[test]
fn within_asks_for_every_column_of_the_first() {
    let small = table_of(&[("a", "UInt8")]);
    let large = table_of(&[("b", "String"), ("a", "UInt8")]);
    assert!(small.within(&large));
    assert!(!large.within(&small));
    assert!(ColumnTable::new().within(&small));
    assert!(!small.within(&table_of(&[("a", "UInt16")])));
}

#[test]
fn return_type_columns_are_the_columns_of_the_table() {
    let info = table(vec![column("id", "UInt64"), column("tags", "Array(String)")]);
    let columns = get_return_type_columns(&info);
    assert_eq!(columns.get("id"), Some(&text("UInt64")));
    assert_eq!(columns.get("tags"), Some(&text("Array(String)")));
    assert_eq!(columns.get("other"), None);
    assert_eq!(columns.entries().len(), 2);
}

#[test]
fn return_type_columns_of_no_columns_are_none() {
    let columns = get_return_type_columns(&table(Vec::new()));
    assert!(columns.entries().is_empty());
}

#[test]
fn of_two_columns_of_one_name_the_later_counts() {
    let info = table(vec![column("id", "UInt64"), column("x", "Date"), column("id", "String")]);
    let columns = get_return_type_columns(&info);
    assert_eq!(columns.get("id"), Some(&text("String")));
    assert_eq!(columns.entries().len(), 2);
}
