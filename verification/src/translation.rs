//! What the translation of a request is, as a function of the request and the
//! schema.

use crate::aggregate::AggregateFunction;
use crate::config::ServerConfigView;
use crate::datatype::DataTypeView;
use crate::lookup::lookup;
use crate::request::{AggregateView, FieldView, NestedFieldView, QueryView};
use crate::type_definition::{column_definition, TypeDefinitionView};
use crate::typecasting::{
    AggregatesTypeStringView, FieldTypeStringView, RowTypeStringView, RowsetTypeStringView,
    TypeStringErrorView,
};
use vstd::prelude::*;

verus! {

/// Whether the result at `i` is the first failure among `results`.
pub open spec fn first_failure<T>(results: Seq<Result<T, TypeStringErrorView>>, i: int) -> bool {
    &&& 0 <= i < results.len()
    &&& results[i] is Err
    &&& forall|j: int| 0 <= j < i ==> results[j] is Ok
}

/// All the results in order, where none is a failure; else the first failure.
pub open spec fn collect<T>(results: Seq<Result<T, TypeStringErrorView>>) -> Result<
    Seq<T>,
    TypeStringErrorView,
> {
    if exists|i: int| first_failure(results, i) {
        Err(results[choose|i: int| first_failure(results, i)]->Err_0)
    } else {
        Ok(Seq::new(results.len(), |i: int| results[i]->Ok_0))
    }
}

/// Where a result is the first failure, the whole fails with it.
pub proof fn lemma_collect_failure<T>(results: Seq<Result<T, TypeStringErrorView>>, i: int)
    requires
        first_failure(results, i),
    ensures
        collect(results) == Err::<Seq<T>, TypeStringErrorView>(results[i]->Err_0),
{
    let chosen = choose|k: int| first_failure(results, k);
    assert(first_failure(results, chosen));
    if chosen < i {
        assert(results[chosen] is Ok);
    } else if i < chosen {
        assert(results[i] is Ok);
    }
}

/// Where no result is a failure, the whole is the list of what they hold.
pub proof fn lemma_collect_all<T>(results: Seq<Result<T, TypeStringErrorView>>, values: Seq<T>)
    requires
        values.len() == results.len(),
        forall|i: int| 0 <= i < results.len() ==> results[i] == Ok::<T, TypeStringErrorView>(values[i]),
    ensures
        collect(results) == Ok::<Seq<T>, TypeStringErrorView>(values),
{
    assert(Seq::new(results.len(), |i: int| results[i]->Ok_0) =~= values);
}

/// A result under an alias.
pub open spec fn under_alias<T>(alias: Seq<char>, result: Result<T, TypeStringErrorView>) -> Result<
    (Seq<char>, T),
    TypeStringErrorView,
> {
    match result {
        Ok(value) => Ok((alias, value)),
        Err(error) => Err(error),
    }
}

/// The row type of a collection and the data type of one of its columns.
pub open spec fn table_column(
    config: ServerConfigView,
    table: Seq<char>,
    column: Seq<char>,
) -> Result<(Seq<char>, DataTypeView), TypeStringErrorView> {
    match config.return_type(table) {
        None => Err(TypeStringErrorView::UnknownTable { table }),
        Some(return_type) => match config.columns(return_type) {
            None => Err(TypeStringErrorView::UnknownTableType { table: return_type }),
            Some(columns) => if columns.dom().contains(column) {
                Ok((return_type, columns[column]))
            } else {
                Err(TypeStringErrorView::UnknownColumn { table: return_type, column })
            },
        },
    }
}

/// The type that one aggregate returns. A count is a `UInt32`. A function over
/// a column returns what the column's definition gives for it; a name that is
/// no function's, and a function that the definition does not have, are the
/// same failure.
pub open spec fn aggregate_type(
    table: Seq<char>,
    aggregate: AggregateView,
    config: ServerConfigView,
) -> Result<DataTypeView, TypeStringErrorView> {
    match aggregate {
        AggregateView::StarCount => Ok(DataTypeView::UInt32),
        AggregateView::ColumnCount { .. } => Ok(DataTypeView::UInt32),
        AggregateView::SingleColumn { column, function } => match table_column(
            config,
            table,
            column,
        ) {
            Err(error) => Err(error),
            Ok((return_type, data_type)) => {
                let definition = column_definition(
                    data_type,
                    column,
                    return_type,
                    config.namespace_separator,
                );
                let unknown = TypeStringErrorView::UnknownAggregateFunction {
                    table,
                    column,
                    data_type,
                    function,
                };
                match AggregateFunction::named(function) {
                    None => Err(unknown),
                    Some(known) => match definition.aggregate_result(known) {
                        None => Err(unknown),
                        Some(result) => Ok(result),
                    },
                }
            },
        },
    }
}

/// What each aggregate of a query comes to, in the order of the request.
pub open spec fn aggregate_results(
    table: Seq<char>,
    aggregates: Seq<(Seq<char>, AggregateView)>,
    config: ServerConfigView,
) -> Seq<Result<(Seq<char>, DataTypeView), TypeStringErrorView>> {
    Seq::new(
        aggregates.len(),
        |i: int| under_alias(aggregates[i].0, aggregate_type(table, aggregates[i].1, config)),
    )
}

/// The types of the aggregates of a query, in the order of the request.
pub open spec fn aggregates_shape(
    table: Seq<char>,
    aggregates: Seq<(Seq<char>, AggregateView)>,
    config: ServerConfigView,
) -> Result<AggregatesTypeStringView, TypeStringErrorView> {
    match collect(aggregate_results(table, aggregates, config)) {
        Ok(typed) => Ok(AggregatesTypeStringView { aggregates: typed }),
        Err(error) => Err(error),
    }
}

/// The shape of what a query returns of a collection: the shape of its rows
/// where it selects fields, the types of its aggregates where it selects
/// aggregates. A failure among the fields comes before one among the
/// aggregates.
pub open spec fn rowset_shape(
    table: Seq<char>,
    query: QueryView,
    relationships: Seq<(Seq<char>, Seq<char>)>,
    config: ServerConfigView,
) -> Result<RowsetTypeStringView, TypeStringErrorView>
    decreases query, 0nat,
{
    let rows = match query.fields {
        Some(fields) => match row_shape(table, fields, relationships, config) {
            Ok(row) => Ok(Some(row)),
            Err(error) => Err(error),
        },
        None => Ok(None),
    };
    let aggregates = match query.aggregates {
        Some(aggregates) => match aggregates_shape(table, aggregates, config) {
            Ok(typed) => Ok(Some(typed)),
            Err(error) => Err(error),
        },
        None => Ok(None),
    };
    match rows {
        Err(error) => Err(error),
        Ok(rows) => match aggregates {
            Err(error) => Err(error),
            Ok(aggregates) => Ok(RowsetTypeStringView { rows, aggregates }),
        },
    }
}

/// What each requested field of a row comes to, in the order of the request.
pub open spec fn row_results(
    table: Seq<char>,
    fields: Seq<(Seq<char>, FieldView)>,
    relationships: Seq<(Seq<char>, Seq<char>)>,
    config: ServerConfigView,
) -> Seq<Result<(Seq<char>, FieldTypeStringView), TypeStringErrorView>>
    decreases fields, 0nat,
{
    Seq::new(
        fields.len(),
        |i: int|
            if 0 <= i < fields.len() {
                under_alias(fields[i].0, row_field_shape(table, fields[i].1, relationships, config))
            } else {
                Err(TypeStringErrorView::NotSupported(Seq::empty()))
            },
    )
}

/// The shape of a row of a collection: the shape of each requested field, in
/// the order of the request.
pub open spec fn row_shape(
    table: Seq<char>,
    fields: Seq<(Seq<char>, FieldView)>,
    relationships: Seq<(Seq<char>, Seq<char>)>,
    config: ServerConfigView,
) -> Result<RowTypeStringView, TypeStringErrorView>
    decreases fields, 1nat,
{
    match collect(row_results(table, fields, relationships, config)) {
        Ok(shapes) => Ok(RowTypeStringView { fields: shapes }),
        Err(error) => Err(error),
    }
}

/// The shape of one field of a row: a column of the collection, selected whole
/// or in part, or the rows that a relationship leads to.
pub open spec fn row_field_shape(
    table: Seq<char>,
    field: FieldView,
    relationships: Seq<(Seq<char>, Seq<char>)>,
    config: ServerConfigView,
) -> Result<FieldTypeStringView, TypeStringErrorView>
    decreases field, 0nat,
{
    match field {
        FieldView::Column { column, fields } => match table_column(config, table, column) {
            Err(error) => Err(error),
            Ok((return_type, data_type)) => field_shape(
                column_definition(data_type, column, return_type, config.namespace_separator),
                fields,
                relationships,
                config,
            ),
        },
        FieldView::Relationship { query, relationship } => relationship_shape(
            *query,
            relationship,
            relationships,
            config,
        ),
    }
}

/// The shape of what a query returns of the collection that a relationship
/// leads to.
pub open spec fn relationship_shape(
    query: QueryView,
    relationship: Seq<char>,
    relationships: Seq<(Seq<char>, Seq<char>)>,
    config: ServerConfigView,
) -> Result<FieldTypeStringView, TypeStringErrorView>
    decreases query, 1nat,
{
    match lookup(relationships, relationship) {
        None => Err(TypeStringErrorView::MissingRelationship(relationship)),
        Some(target) => match rowset_shape(target, query, relationships, config) {
            Ok(rowset) => Ok(FieldTypeStringView::Relationship(Box::new(rowset))),
            Err(error) => Err(error),
        },
    }
}

/// The shape of a value of a definition under a selection. Without a
/// selection the value is returned whole.
pub open spec fn field_shape(
    definition: TypeDefinitionView,
    selection: Option<NestedFieldView>,
    relationships: Seq<(Seq<char>, Seq<char>)>,
    config: ServerConfigView,
) -> Result<FieldTypeStringView, TypeStringErrorView>
    decreases selection, 0nat,
{
    match selection {
        None => Ok(FieldTypeStringView::Scalar(definition.cast_type())),
        Some(nested) => nested_shape(definition, nested, relationships, config),
    }
}

/// The failure of a selection that does not fit the definition it is applied
/// to: the kind of selection, and the definition's cast type as it is written.
pub open spec fn mismatch(definition: TypeDefinitionView, expected: Seq<char>) -> TypeStringErrorView {
    TypeStringErrorView::NestedFieldTypeMismatch {
        expected,
        got: definition.cast_type().render(),
    }
}

/// The shape of a value of a definition of which a part is selected. What
/// lies below any nullability decides whether the selection fits: an array
/// selection fits an array, an object selection fits an object.
pub open spec fn nested_shape(
    definition: TypeDefinitionView,
    nested: NestedFieldView,
    relationships: Seq<(Seq<char>, Seq<char>)>,
    config: ServerConfigView,
) -> Result<FieldTypeStringView, TypeStringErrorView>
    decreases nested, 0nat,
{
    match nested {
        NestedFieldView::Array(inner) => match definition.non_nullable() {
            TypeDefinitionView::Array { element_type } => match nested_shape(
                *element_type,
                *inner,
                relationships,
                config,
            ) {
                Ok(element) => Ok(FieldTypeStringView::Array(Box::new(element))),
                Err(error) => Err(error),
            },
            _ => Err(mismatch(definition, "Array"@)),
        },
        NestedFieldView::Object(selected) => match definition.non_nullable() {
            TypeDefinitionView::Object { name, fields } => match collect(
                object_results(definition, fields, selected, relationships, config),
            ) {
                Ok(shapes) => Ok(FieldTypeStringView::Object(shapes)),
                Err(error) => Err(error),
            },
            _ => Err(mismatch(definition, "Object"@)),
        },
    }
}

/// What each selected field of an object comes to, in the order of the
/// request.
pub open spec fn object_results(
    definition: TypeDefinitionView,
    declared: Seq<(Seq<char>, TypeDefinitionView)>,
    selected: Seq<(Seq<char>, FieldView)>,
    relationships: Seq<(Seq<char>, Seq<char>)>,
    config: ServerConfigView,
) -> Seq<Result<(Seq<char>, FieldTypeStringView), TypeStringErrorView>>
    decreases selected, 0nat,
{
    Seq::new(
        selected.len(),
        |i: int|
            if 0 <= i < selected.len() {
                under_alias(
                    selected[i].0,
                    object_field_shape(definition, declared, selected[i].1, relationships, config),
                )
            } else {
                Err(TypeStringErrorView::NotSupported(Seq::empty()))
            },
    )
}

/// The shape of one selected field of an object: a field that the object
/// declares, selected whole or in part, or the rows that a relationship leads
/// to.
pub open spec fn object_field_shape(
    definition: TypeDefinitionView,
    declared: Seq<(Seq<char>, TypeDefinitionView)>,
    field: FieldView,
    relationships: Seq<(Seq<char>, Seq<char>)>,
    config: ServerConfigView,
) -> Result<FieldTypeStringView, TypeStringErrorView>
    decreases field, 0nat,
{
    match field {
        FieldView::Column { column, fields } => match lookup(declared, column) {
            None => Err(
                TypeStringErrorView::MissingNestedField {
                    field_name: column,
                    object_type: definition.cast_type().render(),
                },
            ),
            Some(field_definition) => field_shape(field_definition, fields, relationships, config),
        },
        FieldView::Relationship { query, relationship } => relationship_shape(
            *query,
            relationship,
            relationships,
            config,
        ),
    }
}

} // verus!
