use indexmap::IndexMap;
use ndc_clickhouse_core::config::{QueryConfig, ServerConfig, TableConfig, TableType};
use ndc_clickhouse_core::datatype::{DataType, Identifier};
use ndc_clickhouse_core::request::{Aggregate, Field, NestedField, Query, Relationship};
use ndc_clickhouse_core::type_definition::TypeDefinition;
use ndc_clickhouse_core::typecasting::{
    empty_marker_type, get_column, get_return_type, AggregatesTypeString, FieldTypeString,
    RowTypeString, RowsetTypeString, TypeStringError,
};

fn quoted(name: &str) -> Option<Identifier> {
    Some(Identifier::DoubleQuoted(name.to_string()))
}

fn text(value: &str) -> String {
    value.to_string()
}

fn address_type() -> DataType {
    DataType::Tuple(vec![
        (quoted("street"), DataType::String),
        (
            quoted("geo"),
            DataType::Tuple(vec![(quoted("lat"), DataType::Float64), (quoted("lon"), DataType::Float64)]),
        ),
    ])
}

fn visits_type() -> DataType {
    DataType::Array(Box::new(DataType::Tuple(vec![
        (quoted("at"), DataType::DateTime),
        (quoted("page"), DataType::String),
    ])))
}

fn schema() -> ServerConfig {
    let mut users: IndexMap<String, DataType> = IndexMap::new();
    users.insert(text("id"), DataType::UInt32);
    users.insert(text("name"), DataType::Nullable(Box::new(DataType::String)));
    users.insert(text("address"), address_type());
    users.insert(text("tags"), DataType::Array(Box::new(DataType::String)));
    users.insert(text("visits"), visits_type());
    let mut events: IndexMap<String, DataType> = IndexMap::new();
    events.insert(text("id"), DataType::UInt64);
    events.insert(text("user_id"), DataType::UInt32);
    events.insert(text("at"), DataType::DateTime);
    ServerConfig {
        namespace_separator: text("."),
        table_types: vec![
            (text("users_row"), TableType { columns: users }),
            (text("events_row"), TableType { columns: events }),
        ],
        tables: vec![
            (text("users"), TableConfig { return_type: text("users_row") }),
            (text("events"), TableConfig { return_type: text("events_row") }),
            (text("ghosts"), TableConfig { return_type: text("ghosts_row") }),
        ],
        queries: vec![
            (text("recent_events"), QueryConfig { return_type: text("events_row") }),
            (text("users"), QueryConfig { return_type: text("events_row") }),
        ],
    }
}

fn relationships() -> Vec<(String, Relationship)> {
    vec![
        (text("user_events"), Relationship { target_collection: text("events") }),
        (text("event_user"), Relationship { target_collection: text("users") }),
        (text("to_nowhere"), Relationship { target_collection: text("nowhere") }),
    ]
}

fn column(name: &str) -> Field {
    Field::Column { column: text(name), fields: None }
}

fn column_with(name: &str, nested: NestedField) -> Field {
    Field::Column { column: text(name), fields: Some(nested) }
}

fn fields_query(fields: Vec<(String, Field)>) -> Query {
    Query { aggregates: None, fields: Some(fields) }
}

fn translate(table: &str, query: &Query) -> Result<RowsetTypeString, TypeStringError> {
    RowsetTypeString::new(table, query, &relationships(), &schema())
}

fn rendered(table: &str, query: &Query) -> String {
    translate(table, query).expect("the request is valid").into_cast_type().render()
}

#[test]
fn return_type_of_a_table_is_found() {
    let config = schema();
    assert_eq!(get_return_type("events", &config), Ok(&text("events_row")));
}

#[test]
fn return_type_of_a_query_is_found() {
    let config = schema();
    assert_eq!(get_return_type("recent_events", &config), Ok(&text("events_row")));
}

#[test]
fn a_table_comes_before_a_query_of_the_same_name() {
    let config = schema();
    assert_eq!(get_return_type("users", &config), Ok(&text("users_row")));
}

#[test]
fn an_unknown_collection_has_no_return_type() {
    let config = schema();
    assert_eq!(
        get_return_type("nowhere", &config),
        Err(TypeStringError::UnknownTable { table: text("nowhere") })
    );
}

#[test]
fn a_column_of_a_row_type_is_found() {
    let config = schema();
    assert_eq!(get_column("user_id", "events_row", &config), Ok(&DataType::UInt32));
    assert_eq!(get_column("tags", "users_row", &config), Ok(&DataType::Array(Box::new(DataType::String))));
}

#[test]
fn a_column_that_the_row_type_lacks_is_unknown() {
    let config = schema();
    assert_eq!(
        get_column("tags", "events_row", &config),
        Err(TypeStringError::UnknownColumn { table: text("events_row"), column: text("tags") })
    );
}

#[test]
fn a_row_type_that_the_schema_lacks_is_unknown() {
    let config = schema();
    assert_eq!(
        get_column("id", "ghosts_row", &config),
        Err(TypeStringError::UnknownTableType { table: text("ghosts_row") })
    );
}

#[test]
fn nothing_selected_is_the_empty_marker() {
    let query = Query { aggregates: None, fields: None };
    let shape = translate("users", &query).expect("the request is valid");
    assert_eq!(shape, RowsetTypeString { rows: None, aggregates: None });
    assert_eq!(
        shape.cast_type(),
        DataType::MapOf { key: Box::new(DataType::Nothing), value: Box::new(DataType::Nothing) }
    );
    assert_eq!(shape.into_cast_type().render(), "Map(Nothing, Nothing)");
}

#[test]
fn nothing_selected_of_an_unknown_collection_is_still_the_empty_marker() {
    let query = Query { aggregates: None, fields: None };
    assert_eq!(rendered("nowhere", &query), "Map(Nothing, Nothing)");
}

#[test]
fn the_empty_marker_is_a_map_from_nothing_to_nothing() {
    assert_eq!(empty_marker_type().render(), "Map(Nothing, Nothing)");
}

#[test]
fn no_fields_is_a_list_of_empty_markers() {
    let query = fields_query(Vec::new());
    assert_eq!(rendered("users", &query), "Tuple(rows Array(Map(Nothing, Nothing)))");
}

#[test]
fn no_aggregates_is_an_empty_marker_under_aggregates() {
    let query = Query { aggregates: Some(Vec::new()), fields: None };
    assert_eq!(rendered("users", &query), "Tuple(aggregates Map(Nothing, Nothing))");
}

#[test]
fn no_subfields_of_an_object_is_the_empty_marker() {
    let query = fields_query(vec![
        (text("where"), column_with("address", NestedField::Object(Vec::new()))),
    ]);
    assert_eq!(rendered("users", &query), "Tuple(rows Array(Tuple(\"where\" Map(Nothing, Nothing))))");
}

#[test]
fn only_fields_gives_only_rows() {
    let query = fields_query(vec![(text("id"), column("id"))]);
    let shape = translate("users", &query).expect("the request is valid");
    assert!(shape.aggregates.is_none());
    assert_eq!(shape.into_cast_type().render(), "Tuple(rows Array(Tuple(\"id\" UInt32)))");
}

#[test]
fn only_aggregates_gives_only_aggregates() {
    let query = Query {
        aggregates: Some(vec![
            (text("n"), Aggregate::StarCount),
            (text("names"), Aggregate::ColumnCount { column: text("name"), distinct: true }),
            (text("last"), Aggregate::SingleColumn { column: text("at"), function: text("max") }),
            (text("total"), Aggregate::SingleColumn { column: text("user_id"), function: text("sum") }),
            (text("mean"), Aggregate::SingleColumn { column: text("id"), function: text("avg") }),
        ]),
        fields: None,
    };
    let shape = translate("events", &query).expect("the request is valid");
    assert!(shape.rows.is_none());
    assert_eq!(
        shape.into_cast_type().render(),
        "Tuple(aggregates Tuple(\"n\" UInt32, \"names\" UInt32, \"last\" DateTime, \"total\" UInt64, \"mean\" Float64))"
    );
}

#[test]
fn fields_and_aggregates_give_rows_then_aggregates() {
    let query = Query {
        aggregates: Some(vec![(text("count"), Aggregate::StarCount)]),
        fields: Some(vec![(text("id"), column("id"))]),
    };
    assert_eq!(
        rendered("events", &query),
        "Tuple(rows Array(Tuple(\"id\" UInt64)), aggregates Tuple(\"count\" UInt32))"
    );
}

#[test]
fn aliases_keep_the_order_of_the_request() {
    let query = fields_query(vec![
        (text("z"), column("tags")),
        (text("a"), column("id")),
        (text("m"), column("name")),
        (text("a2"), column("id")),
    ]);
    let shape = translate("users", &query).expect("the request is valid");
    let aliases: Vec<String> =
        shape.rows.as_ref().expect("fields were selected").fields.iter().map(|field| field.0.clone()).collect();
    assert_eq!(aliases, vec![text("z"), text("a"), text("m"), text("a2")]);
    assert_eq!(
        shape.into_cast_type().render(),
        "Tuple(rows Array(Tuple(\"z\" Array(String), \"a\" UInt32, \"m\" Nullable(String), \"a2\" UInt32)))"
    );
}

#[test]
fn aliases_are_quoted_as_they_are_given() {
    let query = fields_query(vec![(text("user id"), column("id"))]);
    assert_eq!(rendered("users", &query), "Tuple(rows Array(Tuple(\"user id\" UInt32)))");
}

#[test]
fn a_whole_column_is_cast_to_its_own_type() {
    let query = fields_query(vec![(text("a"), column("address")), (text("v"), column("visits"))]);
    let shape = translate("users", &query).expect("the request is valid");
    let row = shape.rows.expect("fields were selected");
    assert_eq!(row.fields[0].1, FieldTypeString::Scalar(address_type()));
    assert_eq!(row.fields[1].1, FieldTypeString::Scalar(visits_type()));
}

#[test]
fn subfields_of_an_object_are_selected_in_order() {
    let query = fields_query(vec![(
        text("home"),
        column_with(
            "address",
            NestedField::Object(vec![
                (
                    text("where"),
                    column_with("geo", NestedField::Object(vec![(text("y"), column("lon")), (text("x"), column("lat"))])),
                ),
                (text("road"), column("street")),
            ]),
        ),
    )]);
    assert_eq!(
        rendered("users", &query),
        "Tuple(rows Array(Tuple(\"home\" Tuple(\"where\" Tuple(\"y\" Float64, \"x\" Float64), \"road\" String))))"
    );
}

#[test]
fn elements_of_an_array_are_selected_in_part() {
    let query = fields_query(vec![(
        text("pages"),
        column_with(
            "visits",
            NestedField::Array(Box::new(NestedField::Object(vec![(text("p"), column("page"))]))),
        ),
    )]);
    let shape = translate("users", &query).expect("the request is valid");
    assert_eq!(
        shape.rows.as_ref().expect("fields were selected").fields[0].1,
        FieldTypeString::Array(Box::new(FieldTypeString::Object(vec![(
            text("p"),
            FieldTypeString::Scalar(DataType::String)
        )])))
    );
    assert_eq!(shape.into_cast_type().render(), "Tuple(rows Array(Tuple(\"pages\" Array(Tuple(\"p\" String)))))");
}

#[test]
fn a_relationship_leads_to_the_rowset_of_its_target() {
    let query = fields_query(vec![
        (text("id"), column("id")),
        (
            text("events"),
            Field::Relationship {
                query: Box::new(Query {
                    aggregates: Some(vec![(text("n"), Aggregate::StarCount)]),
                    fields: Some(vec![
                        (text("when"), column("at")),
                        (
                            text("who"),
                            Field::Relationship {
                                query: Box::new(fields_query(vec![(text("name"), column("name"))])),
                                relationship: text("event_user"),
                            },
                        ),
                    ]),
                }),
                relationship: text("user_events"),
            },
        ),
    ]);
    assert_eq!(
        rendered("users", &query),
        "Tuple(rows Array(Tuple(\"id\" UInt32, \"events\" Tuple(rows Array(Tuple(\"when\" DateTime, \"who\" Tuple(rows Array(Tuple(\"name\" Nullable(String)))))), aggregates Tuple(\"n\" UInt32)))))"
    );
}

#[test]
fn a_relationship_may_be_followed_from_inside_an_object() {
    let query = fields_query(vec![(
        text("home"),
        column_with(
            "address",
            NestedField::Object(vec![(
                text("seen"),
                Field::Relationship {
                    query: Box::new(fields_query(vec![(text("id"), column("id"))])),
                    relationship: text("user_events"),
                },
            )]),
        ),
    )]);
    assert_eq!(
        rendered("users", &query),
        "Tuple(rows Array(Tuple(\"home\" Tuple(\"seen\" Tuple(rows Array(Tuple(\"id\" UInt64)))))))"
    );
}

#[test]
fn object_selection_on_a_scalar_is_a_mismatch() {
    let query = fields_query(vec![(text("id"), column_with("id", NestedField::Object(Vec::new())))]);
    assert_eq!(
        translate("users", &query),
        Err(TypeStringError::NestedFieldTypeMismatch { expected: text("Object"), got: text("UInt32") })
    );
}

#[test]
fn array_selection_on_a_scalar_is_a_mismatch() {
    let query = fields_query(vec![(
        text("id"),
        column_with("id", NestedField::Array(Box::new(NestedField::Object(Vec::new())))),
    )]);
    assert_eq!(
        translate("users", &query),
        Err(TypeStringError::NestedFieldTypeMismatch { expected: text("Array"), got: text("UInt32") })
    );
}

#[test]
fn object_selection_on_a_nullable_scalar_names_the_nullable_type() {
    let query = fields_query(vec![(text("n"), column_with("name", NestedField::Object(Vec::new())))]);
    assert_eq!(
        translate("users", &query),
        Err(TypeStringError::NestedFieldTypeMismatch {
            expected: text("Object"),
            got: text("Nullable(String)")
        })
    );
}

#[test]
fn object_selection_on_an_array_is_a_mismatch() {
    let query = fields_query(vec![(text("t"), column_with("tags", NestedField::Object(Vec::new())))]);
    assert_eq!(
        translate("users", &query),
        Err(TypeStringError::NestedFieldTypeMismatch { expected: text("Object"), got: text("Array(String)") })
    );
}

#[test]
fn array_selection_on_an_object_is_a_mismatch() {
    let query = fields_query(vec![(
        text("a"),
        column_with("address", NestedField::Array(Box::new(NestedField::Object(Vec::new())))),
    )]);
    assert_eq!(
        translate("users", &query),
        Err(TypeStringError::NestedFieldTypeMismatch {
            expected: text("Array"),
            got: text("Tuple(\"street\" String, \"geo\" Tuple(\"lat\" Float64, \"lon\" Float64))")
        })
    );
}

#[test]
fn a_subfield_that_the_object_lacks_is_missing() {
    let query = fields_query(vec![(
        text("a"),
        column_with("address", NestedField::Object(vec![(text("z"), column("zip"))])),
    )]);
    assert_eq!(
        translate("users", &query),
        Err(TypeStringError::MissingNestedField {
            field_name: text("zip"),
            object_type: text("Tuple(\"street\" String, \"geo\" Tuple(\"lat\" Float64, \"lon\" Float64))")
        })
    );
}

#[test]
fn an_undeclared_relationship_is_missing() {
    let query = fields_query(vec![(
        text("x"),
        Field::Relationship {
            query: Box::new(Query { aggregates: None, fields: None }),
            relationship: text("user_orders"),
        },
    )]);
    assert_eq!(translate("users", &query), Err(TypeStringError::MissingRelationship(text("user_orders"))));
}

#[test]
fn an_undeclared_relationship_inside_an_object_is_missing() {
    let query = fields_query(vec![(
        text("home"),
        column_with(
            "address",
            NestedField::Object(vec![(
                text("x"),
                Field::Relationship {
                    query: Box::new(Query { aggregates: None, fields: None }),
                    relationship: text("user_orders"),
                },
            )]),
        ),
    )]);
    assert_eq!(translate("users", &query), Err(TypeStringError::MissingRelationship(text("user_orders"))));
}

#[test]
fn a_relationship_to_an_unknown_collection_fails_on_its_columns() {
    let query = fields_query(vec![(
        text("x"),
        Field::Relationship {
            query: Box::new(fields_query(vec![(text("id"), column("id"))])),
            relationship: text("to_nowhere"),
        },
    )]);
    assert_eq!(translate("users", &query), Err(TypeStringError::UnknownTable { table: text("nowhere") }));
}

#[test]
fn a_column_of_an_unknown_collection_is_an_unknown_table() {
    let query = fields_query(vec![(text("id"), column("id"))]);
    assert_eq!(translate("nowhere", &query), Err(TypeStringError::UnknownTable { table: text("nowhere") }));
}

#[test]
fn a_column_of_a_collection_without_row_type_is_an_unknown_table_type() {
    let query = fields_query(vec![(text("id"), column("id"))]);
    assert_eq!(translate("ghosts", &query), Err(TypeStringError::UnknownTableType { table: text("ghosts_row") }));
}

#[test]
fn a_column_that_the_collection_lacks_is_an_unknown_column() {
    let query = fields_query(vec![(text("id"), column("id")), (text("e"), column("email"))]);
    assert_eq!(
        translate("users", &query),
        Err(TypeStringError::UnknownColumn { table: text("users_row"), column: text("email") })
    );
}

#[test]
fn a_function_name_that_is_none_is_an_unknown_aggregate_function() {
    let query = Query {
        aggregates: Some(vec![(
            text("m"),
            Aggregate::SingleColumn { column: text("id"), function: text("median") },
        )]),
        fields: None,
    };
    assert_eq!(
        translate("events", &query),
        Err(TypeStringError::UnknownAggregateFunction {
            table: text("events"),
            column: text("id"),
            data_type: DataType::UInt64,
            function: text("median"),
        })
    );
}

#[test]
fn a_function_that_the_type_lacks_is_an_unknown_aggregate_function() {
    let query = Query {
        aggregates: Some(vec![(
            text("s"),
            Aggregate::SingleColumn { column: text("tags"), function: text("sum") },
        )]),
        fields: None,
    };
    assert_eq!(
        translate("users", &query),
        Err(TypeStringError::UnknownAggregateFunction {
            table: text("users"),
            column: text("tags"),
            data_type: DataType::Array(Box::new(DataType::String)),
            function: text("sum"),
        })
    );
}

#[test]
fn an_aggregate_over_an_unknown_column_is_an_unknown_column() {
    let query = Query {
        aggregates: Some(vec![(
            text("s"),
            Aggregate::SingleColumn { column: text("price"), function: text("sum") },
        )]),
        fields: None,
    };
    assert_eq!(
        translate("events", &query),
        Err(TypeStringError::UnknownColumn { table: text("events_row"), column: text("price") })
    );
}

#[test]
fn a_count_needs_no_known_column() {
    let query = Query {
        aggregates: Some(vec![(
            text("n"),
            Aggregate::ColumnCount { column: text("price"), distinct: false },
        )]),
        fields: None,
    };
    assert_eq!(rendered("nowhere", &query), "Tuple(aggregates Tuple(\"n\" UInt32))");
}

#[test]
fn the_first_failure_in_the_order_of_the_request_is_reported() {
    let query = fields_query(vec![
        (text("ok"), column("id")),
        (text("bad1"), column("email")),
        (text("bad2"), column("phone")),
    ]);
    assert_eq!(
        translate("users", &query),
        Err(TypeStringError::UnknownColumn { table: text("users_row"), column: text("email") })
    );
}

#[test]
fn a_failure_among_the_fields_comes_before_one_among_the_aggregates() {
    let query = Query {
        aggregates: Some(vec![(
            text("m"),
            Aggregate::SingleColumn { column: text("id"), function: text("median") },
        )]),
        fields: Some(vec![(text("e"), column("email"))]),
    };
    assert_eq!(
        translate("users", &query),
        Err(TypeStringError::UnknownColumn { table: text("users_row"), column: text("email") })
    );
}

#[test]
fn field_shape_without_selection_is_the_cast_type_of_the_definition() {
    let definition = TypeDefinition::from_table_column(&address_type(), "address", "users_row", ".");
    let shape = FieldTypeString::new(&definition, None, &relationships(), &schema());
    assert_eq!(shape, Ok(FieldTypeString::Scalar(address_type())));
}

#[test]
fn field_shape_with_selection_follows_the_selection() {
    let definition = TypeDefinition::from_table_column(&address_type(), "address", "users_row", ".");
    let nested = NestedField::Object(vec![(text("s"), column("street"))]);
    let shape = FieldTypeString::new(&definition, Some(&nested), &relationships(), &schema())
        .expect("the selection fits");
    assert_eq!(shape, FieldTypeString::Object(vec![(text("s"), FieldTypeString::Scalar(DataType::String))]));
    assert_eq!(shape.into_cast_type().render(), "Tuple(\"s\" String)");
}

#[test]
fn selection_looks_below_nullability() {
    let definition = TypeDefinition::Nullable {
        inner: Box::new(TypeDefinition::Array {
            element_type: Box::new(TypeDefinition::Object {
                name: text("o"),
                fields: vec![(text("a"), TypeDefinition::Scalar(DataType::UInt8))],
            }),
        }),
    };
    let nested = NestedField::Array(Box::new(NestedField::Object(vec![(text("x"), column("a"))])));
    let shape = FieldTypeString::select(&definition, &nested, &relationships(), &schema())
        .expect("the selection fits");
    assert_eq!(shape.cast_type().render(), "Array(Tuple(\"x\" UInt8))");
}

#[test]
fn row_shape_is_built_from_the_fields() {
    let fields = vec![(text("i"), column("id")), (text("t"), column("tags"))];
    let row = RowTypeString::new("users", &fields, &relationships(), &schema())
        .expect("the request is valid");
    assert_eq!(
        row,
        RowTypeString {
            fields: vec![
                (text("i"), FieldTypeString::Scalar(DataType::UInt32)),
                (text("t"), FieldTypeString::Scalar(DataType::Array(Box::new(DataType::String)))),
            ]
        }
    );
    assert_eq!(row.into_cast_type().render(), "Tuple(\"i\" UInt32, \"t\" Array(String))");
}

#[test]
fn aggregates_shape_is_built_from_the_aggregates() {
    let aggregates = vec![
        (text("lo"), Aggregate::SingleColumn { column: text("id"), function: text("min") }),
        (text("n"), Aggregate::StarCount),
    ];
    let shape = AggregatesTypeString::new("events", &aggregates, &schema())
        .expect("the request is valid");
    assert_eq!(
        shape,
        AggregatesTypeString {
            aggregates: vec![(text("lo"), DataType::UInt64), (text("n"), DataType::UInt32)]
        }
    );
    assert_eq!(shape.into_cast_type().render(), "Tuple(\"lo\" UInt64, \"n\" UInt32)");
}

#[test]
fn failures_are_put_into_words() {
    assert_eq!(TypeStringError::UnknownTable { table: text("t") }.message(), "Unknown table: t");
    assert_eq!(TypeStringError::UnknownTableType { table: text("t") }.message(), "Unknown table type: t");
    assert_eq!(
        TypeStringError::UnknownColumn { table: text("t"), column: text("c") }.message(),
        "Unknown column: c in table: t"
    );
    assert_eq!(
        TypeStringError::UnknownAggregateFunction {
            table: text("t"),
            column: text("c"),
            data_type: DataType::Array(Box::new(DataType::String)),
            function: text("f"),
        }
        .message(),
        "Unknown aggregate function: f for column c of type: Array(String) in table t"
    );
    assert_eq!(TypeStringError::MissingRelationship(text("r")).message(), "Missing relationship: r");
    assert_eq!(TypeStringError::NotSupported(text("x")).message(), "Not supported: x");
    assert_eq!(
        TypeStringError::NestedFieldTypeMismatch { expected: text("Object"), got: text("UInt8") }.message(),
        "Nested field selector type mismatch, expected: Object, got UInt8"
    );
    assert_eq!(
        TypeStringError::MissingNestedField { field_name: text("f"), object_type: text("T") }.message(),
        "Missing field f in object type T"
    );
}
