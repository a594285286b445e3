use indexmap::IndexMap;
use ndc_clickhouse_core::config::{QueryConfig, ServerConfig, TableConfig, TableType};
use ndc_clickhouse_core::datatype::DataType;
use ndc_clickhouse_core::request::{Aggregate, Field, Query, Relationship};
use ndc_clickhouse_core::typecasting::RowsetTypeString;

fn events_config() -> ServerConfig {
    let mut columns: IndexMap<String, DataType> = IndexMap::new();
    columns.insert("id".to_string(), DataType::UInt64);
    columns.insert("tags".to_string(), DataType::Array(Box::new(DataType::String)));
    ServerConfig {
        namespace_separator: ".".to_string(),
        table_types: vec![("events_row".to_string(), TableType { columns })],
        tables: vec![("events".to_string(), TableConfig { return_type: "events_row".to_string() })],
        queries: Vec::<(String, QueryConfig)>::new(),
    }
}

fn column(name: &str) -> Field {
    Field::Column { column: name.to_string(), fields: None }
}

fn no_relationships() -> Vec<(String, Relationship)> {
    Vec::new()
}

#[test]
fn fields_of_events_render_as_rows_of_tuples() {
    let query = Query {
        aggregates: None,
        fields: Some(vec![("id".to_string(), column("id")), ("tags".to_string(), column("tags"))]),
    };
    let shape = RowsetTypeString::new("events", &query, &no_relationships(), &events_config())
        .expect("the request is valid");
    assert_eq!(
        shape.into_cast_type().render(),
        "Tuple(rows Array(Tuple(\"id\" UInt64, \"tags\" Array(String))))"
    );
}

#[test]
fn star_count_of_events_renders_as_aggregates() {
    let query = Query {
        aggregates: Some(vec![("count".to_string(), Aggregate::StarCount)]),
        fields: None,
    };
    let shape = RowsetTypeString::new("events", &query, &no_relationships(), &events_config())
        .expect("the request is valid");
    assert_eq!(shape.into_cast_type().render(), "Tuple(aggregates Tuple(\"count\" UInt32))");
}
