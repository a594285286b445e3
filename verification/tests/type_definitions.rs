use ndc_clickhouse_core::datatype::{DataType, Identifier};
use ndc_clickhouse_core::type_definition::TypeDefinition;

fn quoted(name: &str) -> Option<Identifier> {
    Some(Identifier::DoubleQuoted(name.to_string()))
}

fn scalar(data_type: DataType) -> TypeDefinition {
    TypeDefinition::Scalar(data_type)
}

#[test]
fn a_plain_type_is_a_scalar() {
    let definition = TypeDefinition::from_table_column(&DataType::UInt64, "id", "events", ".");
    assert_eq!(definition, scalar(DataType::UInt64));
}

#[test]
fn a_map_is_a_scalar() {
    let map = DataType::MapOf {
        key: Box::new(DataType::String),
        value: Box::new(DataType::UInt8),
    };
    let definition = TypeDefinition::from_table_column(&map, "m", "t", ".");
    assert_eq!(definition, scalar(map));
}

#[test]
fn a_nullable_type_wraps_its_inner_definition() {
    let data_type = DataType::Nullable(Box::new(DataType::String));
    let definition = TypeDefinition::from_table_column(&data_type, "name", "users", ".");
    assert_eq!(definition, TypeDefinition::Nullable { inner: Box::new(scalar(DataType::String)) });
}

#[test]
fn nullable_twice_is_nullable_once() {
    let data_type =
        DataType::Nullable(Box::new(DataType::Nullable(Box::new(DataType::String))));
    let definition = TypeDefinition::from_table_column(&data_type, "name", "users", ".");
    assert_eq!(definition, TypeDefinition::Nullable { inner: Box::new(scalar(DataType::String)) });
}

#[test]
fn an_array_keeps_its_element_definition() {
    let data_type = DataType::Array(Box::new(DataType::Nullable(Box::new(DataType::Int8))));
    let definition = TypeDefinition::from_table_column(&data_type, "xs", "t", ".");
    assert_eq!(
        definition,
        TypeDefinition::Array {
            element_type: Box::new(TypeDefinition::Nullable {
                inner: Box::new(scalar(DataType::Int8))
            })
        }
    );
}

#[test]
fn a_named_tuple_is_an_object_named_by_its_path() {
    let data_type = DataType::Tuple(vec![
        (quoted("street"), DataType::String),
        (
            Some(Identifier::Unquoted("geo".to_string())),
            DataType::Tuple(vec![(quoted("lat"), DataType::Float64)]),
        ),
    ]);
    let definition = TypeDefinition::from_table_column(&data_type, "address", "users", "::");
    assert_eq!(
        definition,
        TypeDefinition::Object {
            name: "users::address".to_string(),
            fields: vec![
                ("street".to_string(), scalar(DataType::String)),
                (
                    "geo".to_string(),
                    TypeDefinition::Object {
                        name: "users::address::geo".to_string(),
                        fields: vec![("lat".to_string(), scalar(DataType::Float64))],
                    }
                ),
            ],
        }
    );
}

#[test]
fn a_tuple_with_an_unnamed_member_is_a_scalar() {
    let data_type =
        DataType::Tuple(vec![(quoted("a"), DataType::String), (None, DataType::UInt8)]);
    let definition = TypeDefinition::from_table_column(&data_type, "c", "t", ".");
    assert_eq!(definition, scalar(data_type));
}

#[test]
fn a_tuple_with_a_repeated_name_is_a_scalar() {
    let data_type = DataType::Tuple(vec![
        (quoted("a"), DataType::String),
        (quoted("b"), DataType::String),
        (Some(Identifier::BacktickQuoted("a".to_string())), DataType::UInt8),
    ]);
    let definition = TypeDefinition::from_table_column(&data_type, "c", "t", ".");
    assert_eq!(definition, scalar(data_type));
}

#[test]
fn new_classifies_under_the_given_path() {
    let data_type = DataType::Tuple(vec![(quoted("a"), DataType::String)]);
    let definition = TypeDefinition::new(&data_type, "root", "_");
    assert_eq!(
        definition,
        TypeDefinition::Object {
            name: "root".to_string(),
            fields: vec![("a".to_string(), scalar(DataType::String))],
        }
    );
}

#[test]
fn non_nullable_looks_below_the_nullability() {
    let inner = TypeDefinition::Array { element_type: Box::new(scalar(DataType::UInt8)) };
    let nullable = TypeDefinition::Nullable {
        inner: Box::new(TypeDefinition::Array { element_type: Box::new(scalar(DataType::UInt8)) }),
    };
    assert_eq!(nullable.non_nullable(), &inner);
    assert_eq!(inner.non_nullable(), &inner);
}

#[test]
fn cast_type_of_an_object_is_a_tuple_of_quoted_members() {
    let definition = TypeDefinition::Object {
        name: "t.c".to_string(),
        fields: vec![
            ("a".to_string(), scalar(DataType::String)),
            (
                "b".to_string(),
                TypeDefinition::Nullable { inner: Box::new(scalar(DataType::UInt8)) },
            ),
        ],
    };
    assert_eq!(
        definition.cast_type(),
        DataType::Tuple(vec![
            (quoted("a"), DataType::String),
            (quoted("b"), DataType::Nullable(Box::new(DataType::UInt8))),
        ])
    );
    assert_eq!(definition.cast_type().render(), "Tuple(\"a\" String, \"b\" Nullable(UInt8))");
}

#[test]
fn classifying_and_casting_gives_the_data_type_back() {
    let data_type = DataType::Array(Box::new(DataType::Tuple(vec![
        (quoted("a"), DataType::Nullable(Box::new(DataType::String))),
        (quoted("b"), DataType::Tuple(vec![(quoted("c"), DataType::Date)])),
        (quoted("d"), DataType::Tuple(vec![(None, DataType::Date)])),
    ])));
    let definition = TypeDefinition::from_table_column(&data_type, "col", "table", ".");
    assert_eq!(definition.cast_type(), data_type);
}

#[test]
fn unquoted_names_come_back_in_double_quotes() {
    let data_type = DataType::Tuple(vec![(
        Some(Identifier::Unquoted("a".to_string())),
        DataType::String,
    )]);
    let definition = TypeDefinition::from_table_column(&data_type, "col", "table", ".");
    assert_eq!(definition.cast_type(), DataType::Tuple(vec![(quoted("a"), DataType::String)]));
}
