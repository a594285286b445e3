use ndc_clickhouse_core::datatype::{DataType, Identifier};

fn boxed(data_type: DataType) -> Box<DataType> {
    Box::new(data_type)
}

#[test]
fn scalars_render_as_their_names() {
    assert_eq!(DataType::Bool.render(), "Bool");
    assert_eq!(DataType::String.render(), "String");
    assert_eq!(DataType::UInt8.render(), "UInt8");
    assert_eq!(DataType::UInt256.render(), "UInt256");
    assert_eq!(DataType::Int64.render(), "Int64");
    assert_eq!(DataType::Float32.render(), "Float32");
    assert_eq!(DataType::Date32.render(), "Date32");
    assert_eq!(DataType::DateTime.render(), "DateTime");
    assert_eq!(DataType::Json.render(), "JSON");
    assert_eq!(DataType::Uuid.render(), "UUID");
    assert_eq!(DataType::IPv4.render(), "IPv4");
    assert_eq!(DataType::IPv6.render(), "IPv6");
    assert_eq!(DataType::Nothing.render(), "Nothing");
}

#[test]
fn wrappers_render_around_their_inner_type() {
    assert_eq!(DataType::Nullable(boxed(DataType::String)).render(), "Nullable(String)");
    assert_eq!(DataType::Array(boxed(DataType::UInt8)).render(), "Array(UInt8)");
    assert_eq!(
        DataType::Array(boxed(DataType::Nullable(boxed(DataType::Int32)))).render(),
        "Array(Nullable(Int32))"
    );
    assert_eq!(
        DataType::MapOf { key: boxed(DataType::String), value: boxed(DataType::UInt64) }.render(),
        "Map(String, UInt64)"
    );
}

#[test]
fn tuple_members_render_with_their_names_and_quotes() {
    let tuple = DataType::Tuple(vec![
        (Some(Identifier::DoubleQuoted("a b".to_string())), DataType::UInt8),
        (Some(Identifier::BacktickQuoted("c".to_string())), DataType::String),
        (Some(Identifier::Unquoted("d".to_string())), DataType::Date),
        (None, DataType::Float64),
    ]);
    assert_eq!(tuple.render(), "Tuple(\"a b\" UInt8, `c` String, d Date, Float64)");
}

#[test]
fn tuple_of_one_member_has_no_separator() {
    let tuple = DataType::Tuple(vec![(None, DataType::UInt8)]);
    assert_eq!(tuple.render(), "Tuple(UInt8)");
}

#[test]
fn tuple_without_members_renders_empty_brackets() {
    assert_eq!(DataType::Tuple(Vec::new()).render(), "Tuple()");
}

#[test]
fn identifier_value_is_the_bare_name() {
    assert_eq!(Identifier::DoubleQuoted("x".to_string()).value(), "x");
    assert_eq!(Identifier::BacktickQuoted("y".to_string()).value(), "y");
    assert_eq!(Identifier::Unquoted("z".to_string()).value(), "z");
}

#[test]
fn identifier_renders_in_its_quotes() {
    assert_eq!(Identifier::DoubleQuoted("x".to_string()).render(), "\"x\"");
    assert_eq!(Identifier::BacktickQuoted("y".to_string()).render(), "`y`");
    assert_eq!(Identifier::Unquoted("z".to_string()).render(), "z");
}

#[test]
fn a_copy_of_a_type_equals_it() {
    let tuple = DataType::Tuple(vec![
        (Some(Identifier::DoubleQuoted("a".to_string())), DataType::Array(boxed(DataType::UInt8))),
        (None, DataType::MapOf { key: boxed(DataType::String), value: boxed(DataType::Nothing) }),
    ]);
    assert_eq!(tuple.duplicate(), tuple);
    assert_eq!(tuple.clone(), tuple);
    assert_eq!(tuple.duplicate().render(), tuple.render());
}

#[test]
fn types_with_numbers_render_the_numbers_in_decimal() {
    assert_eq!(DataType::FixedString(16).render(), "FixedString(16)");
    assert_eq!(DataType::FixedString(0).render(), "FixedString(0)");
    assert_eq!(DataType::FixedString(4294967295).render(), "FixedString(4294967295)");
    assert_eq!(DataType::Decimal { precision: 10, scale: 2 }.render(), "Decimal(10, 2)");
    assert_eq!(DataType::Decimal { precision: 76, scale: 0 }.render(), "Decimal(76, 0)");
    assert_eq!(DataType::DateTime64 { precision: 3 }.render(), "DateTime64(3)");
}

#[test]
fn low_cardinality_renders_around_its_inner_type() {
    assert_eq!(
        DataType::LowCardinality(boxed(DataType::Nullable(boxed(DataType::String)))).render(),
        "LowCardinality(Nullable(String))"
    );
}

#[test]
fn a_copy_keeps_numbers() {
    let data_type = DataType::Array(boxed(DataType::Decimal { precision: 18, scale: 4 }));
    assert_eq!(data_type.duplicate(), data_type);
    assert_eq!(DataType::FixedString(7).duplicate(), DataType::FixedString(7));
    assert_eq!(
        DataType::LowCardinality(boxed(DataType::DateTime64 { precision: 9 })).duplicate(),
        DataType::LowCardinality(boxed(DataType::DateTime64 { precision: 9 }))
    );
}
