//! What holds of every translation.

use crate::aggregate::AggregateFunction;
use crate::config::ServerConfigView;
use crate::datatype::{render_member, render_members, DataTypeView, IdentifierView};
use crate::lookup::{lookup, names};
use crate::request::{AggregateView, FieldView, NestedFieldView, QueryView};
use crate::translation::{
    aggregate_results, aggregate_type, aggregates_shape, collect, field_shape, first_failure,
    nested_shape, object_field_shape, object_results, relationship_shape, row_field_shape,
    row_results, row_shape, rowset_shape, table_column,
};
use crate::type_definition::{
    column_definition, lemma_classify_cast_type, lossless, TypeDefinitionView,
};
use crate::typecasting::{
    aggregates_member, empty_marker, fields_cast_type, rows_member, AggregatesTypeStringView,
    FieldTypeStringView, RowTypeStringView, RowsetTypeStringView, TypeStringErrorView,
};
use vstd::prelude::*;

verus! {

/// Where a list of results collects to a list of values, each result holds
/// the value at its place.
pub proof fn lemma_collected<T>(results: Seq<Result<T, TypeStringErrorView>>)
    ensures
        collect(results) matches Ok(values) ==> values.len() == results.len() && forall|i: int|
            0 <= i < results.len() ==> #[trigger] results[i] == Ok::<T, TypeStringErrorView>(
                values[i],
            ),
        collect(results) matches Err(error) ==> exists|i: int|
            first_failure(results, i) && results[i] == Err::<T, TypeStringErrorView>(error),
{
    if exists|i: int| first_failure(results, i) {
        let i = choose|i: int| first_failure(results, i);
        assert(first_failure(results, i));
    } else {
        assert forall|i: int| 0 <= i < results.len() implies #[trigger] results[i] is Ok by {
            lemma_failure_has_first(results, i);
        }
    }
}

/// Where a result is a failure, some result is the first failure.
proof fn lemma_failure_has_first<T>(results: Seq<Result<T, TypeStringErrorView>>, i: int)
    requires
        0 <= i < results.len(),
        !exists|k: int| first_failure(results, k),
    ensures
        results[i] is Ok,
    decreases i,
{
    if results[i] is Err {
        if exists|j: int| 0 <= j < i && results[j] is Err {
            let j = choose|j: int| 0 <= j < i && results[j] is Err;
            lemma_failure_has_first(results, j);
        } else {
            assert(first_failure(results, i));
        }
    }
}

/// The text of the empty marker.
pub proof fn lemma_empty_marker_text()
    ensures
        empty_marker().render() == "Map(Nothing, Nothing)"@,
{
    reveal_with_fuel(DataTypeView::render, 2);
    reveal_strlit("Map(Nothing, Nothing)");
    reveal_strlit("Map(");
    reveal_strlit("Nothing");
    reveal_strlit(", ");
    reveal_strlit(")");
    assert(empty_marker().render() =~= "Map(Nothing, Nothing)"@);
}

/// A query that selects neither fields nor aggregates is always translated,
/// and what it returns is cast to the empty marker.
pub proof fn lemma_nothing_selected(
    table: Seq<char>,
    relationships: Seq<(Seq<char>, Seq<char>)>,
    config: ServerConfigView,
)
    ensures
        rowset_shape(
            table,
            QueryView { aggregates: None, fields: None },
            relationships,
            config,
        ) == Ok::<RowsetTypeStringView, TypeStringErrorView>(
            RowsetTypeStringView { rows: None, aggregates: None },
        ),
        (RowsetTypeStringView { rows: None, aggregates: None }).cast_type() == empty_marker(),
{
}

/// A row of which no field is selected is always given a shape, and is cast
/// to the empty marker.
pub proof fn lemma_no_field_selected(
    table: Seq<char>,
    relationships: Seq<(Seq<char>, Seq<char>)>,
    config: ServerConfigView,
)
    ensures
        row_shape(table, Seq::empty(), relationships, config) == Ok::<
            RowTypeStringView,
            TypeStringErrorView,
        >(RowTypeStringView { fields: Seq::empty() }),
        (RowTypeStringView { fields: Seq::empty() }).cast_type() == empty_marker(),
{
    let results = row_results(table, Seq::empty(), relationships, config);
    lemma_collected(results);
    assert(collect(results)->Ok_0 =~= Seq::empty());
}

/// A list of no aggregates is always given its types, and is cast to the empty
/// marker.
pub proof fn lemma_no_aggregate_selected(table: Seq<char>, config: ServerConfigView)
    ensures
        aggregates_shape(table, Seq::empty(), config) == Ok::<
            AggregatesTypeStringView,
            TypeStringErrorView,
        >(AggregatesTypeStringView { aggregates: Seq::empty() }),
        (AggregatesTypeStringView { aggregates: Seq::empty() }).cast_type() == empty_marker(),
{
    let results = aggregate_results(table, Seq::empty(), config);
    lemma_collected(results);
    assert(collect(results)->Ok_0 =~= Seq::empty());
}

/// An object of which no field is selected is always given a shape, and is
/// cast to the empty marker, at whatever depth it stands.
pub proof fn lemma_no_subfield_selected(
    definition: TypeDefinitionView,
    relationships: Seq<(Seq<char>, Seq<char>)>,
    config: ServerConfigView,
)
    requires
        definition.non_nullable() is Object,
    ensures
        nested_shape(
            definition,
            NestedFieldView::Object(Seq::empty()),
            relationships,
            config,
        ) == Ok::<FieldTypeStringView, TypeStringErrorView>(
            FieldTypeStringView::Object(Seq::empty()),
        ),
        FieldTypeStringView::Object(Seq::empty()).cast_type() == empty_marker(),
{
    let results = object_results(
        definition,
        definition.non_nullable()->fields,
        Seq::empty(),
        relationships,
        config,
    );
    lemma_collected(results);
    assert(collect(results)->Ok_0 =~= Seq::empty());
    assert(fields_cast_type(Seq::empty()) == empty_marker());
}

/// The text of a tuple of the one member `rows`.
pub proof fn lemma_rows_text(row: DataTypeView)
    ensures
        DataTypeView::Tuple(seq![rows_member(row)]).render() == "Tuple(rows Array("@ + row.render()
            + "))"@,
{
    let members = seq![rows_member(row)];
    reveal_with_fuel(DataTypeView::render, 2);
    reveal_with_fuel(render_members, 2);
    reveal_strlit("Tuple(rows Array(");
    reveal_strlit("))");
    reveal_strlit("Tuple(");
    reveal_strlit("rows");
    reveal_strlit(" ");
    reveal_strlit("Array(");
    reveal_strlit(")");
    assert(render_members(members, 1) == render_member(members[0]));
    assert(render_member(members[0]) == "rows"@ + " "@ + ("Array("@ + row.render() + ")"@));
    assert(DataTypeView::Tuple(members).render() =~= "Tuple(rows Array("@ + row.render() + "))"@);
}

/// The text of a tuple of the one member `aggregates`.
pub proof fn lemma_aggregates_text(aggregates: DataTypeView)
    ensures
        DataTypeView::Tuple(seq![aggregates_member(aggregates)]).render() == "Tuple(aggregates "@
            + aggregates.render() + ")"@,
{
    let members = seq![aggregates_member(aggregates)];
    reveal_with_fuel(render_members, 2);
    reveal_strlit("Tuple(aggregates ");
    reveal_strlit("Tuple(");
    reveal_strlit("aggregates");
    reveal_strlit(" ");
    reveal_strlit(")");
    assert(render_members(members, 1) == render_member(members[0]));
    assert(render_member(members[0]) == "aggregates"@ + " "@ + aggregates.render());
    assert(DataTypeView::Tuple(members).render() =~= "Tuple(aggregates "@ + aggregates.render()
        + ")"@);
}

/// The text of a tuple of the two members `rows` and `aggregates`.
pub proof fn lemma_rows_and_aggregates_text(row: DataTypeView, aggregates: DataTypeView)
    ensures
        DataTypeView::Tuple(seq![rows_member(row), aggregates_member(aggregates)]).render()
            == "Tuple(rows Array("@ + row.render() + "), aggregates "@ + aggregates.render() + ")"@,
{
    let members = seq![rows_member(row), aggregates_member(aggregates)];
    reveal_with_fuel(DataTypeView::render, 2);
    reveal_with_fuel(render_members, 3);
    reveal_strlit("Tuple(rows Array(");
    reveal_strlit("), aggregates ");
    reveal_strlit("Tuple(");
    reveal_strlit("rows");
    reveal_strlit("aggregates");
    reveal_strlit(" ");
    reveal_strlit(", ");
    reveal_strlit("Array(");
    reveal_strlit(")");
    assert(render_members(members, 1) == render_member(members[0]));
    assert(render_members(members, 2) == render_members(members, 1) + ", "@ + render_member(
        members[1],
    ));
    assert(render_member(members[0]) == "rows"@ + " "@ + ("Array("@ + row.render() + ")"@));
    assert(render_member(members[1]) == "aggregates"@ + " "@ + aggregates.render());
    assert(DataTypeView::Tuple(members).render() =~= "Tuple(rows Array("@ + row.render()
        + "), aggregates "@ + aggregates.render() + ")"@);
}

/// A query that selects fields and no aggregates is translated exactly when
/// its fields are given a shape. What it returns is then cast to a tuple of
/// the one member `rows`, a list of rows of that shape, and is written
/// `Tuple(rows Array(` row `))`.
pub proof fn lemma_only_fields(
    table: Seq<char>,
    fields: Seq<(Seq<char>, FieldView)>,
    relationships: Seq<(Seq<char>, Seq<char>)>,
    config: ServerConfigView,
)
    ensures
        match row_shape(table, fields, relationships, config) {
            Ok(row) => {
                let shape = RowsetTypeStringView { rows: Some(row), aggregates: None };
                &&& rowset_shape(
                    table,
                    QueryView { aggregates: None, fields: Some(fields) },
                    relationships,
                    config,
                ) == Ok::<RowsetTypeStringView, TypeStringErrorView>(shape)
                &&& shape.cast_type() == DataTypeView::Tuple(seq![rows_member(row.cast_type())])
                &&& shape.cast_type().render() == "Tuple(rows Array("@ + row.cast_type().render()
                    + "))"@
            },
            Err(error) => rowset_shape(
                table,
                QueryView { aggregates: None, fields: Some(fields) },
                relationships,
                config,
            ) == Err::<RowsetTypeStringView, TypeStringErrorView>(error),
        },
{
    if let Ok(row) = row_shape(table, fields, relationships, config) {
        lemma_rows_text(row.cast_type());
    }
}

/// A query that selects aggregates and no fields is translated exactly when
/// its aggregates are given their types. What it returns is then cast to a
/// tuple of the one member `aggregates`, and is written `Tuple(aggregates `
/// aggregates `)`.
pub proof fn lemma_only_aggregates(
    table: Seq<char>,
    aggregates: Seq<(Seq<char>, AggregateView)>,
    relationships: Seq<(Seq<char>, Seq<char>)>,
    config: ServerConfigView,
)
    ensures
        match aggregates_shape(table, aggregates, config) {
            Ok(typed) => {
                let shape = RowsetTypeStringView { rows: None, aggregates: Some(typed) };
                &&& rowset_shape(
                    table,
                    QueryView { aggregates: Some(aggregates), fields: None },
                    relationships,
                    config,
                ) == Ok::<RowsetTypeStringView, TypeStringErrorView>(shape)
                &&& shape.cast_type() == DataTypeView::Tuple(
                    seq![aggregates_member(typed.cast_type())],
                )
                &&& shape.cast_type().render() == "Tuple(aggregates "@ + typed.cast_type().render()
                    + ")"@
            },
            Err(error) => rowset_shape(
                table,
                QueryView { aggregates: Some(aggregates), fields: None },
                relationships,
                config,
            ) == Err::<RowsetTypeStringView, TypeStringErrorView>(error),
        },
{
    if let Ok(typed) = aggregates_shape(table, aggregates, config) {
        lemma_aggregates_text(typed.cast_type());
    }
}

/// What a query that selects both fields and aggregates returns is cast to a
/// tuple of the two members `rows` and `aggregates`, in that order.
pub proof fn lemma_fields_and_aggregates(shape: RowsetTypeStringView)
    requires
        shape.rows is Some,
        shape.aggregates is Some,
    ensures
        shape.cast_type() == DataTypeView::Tuple(
            seq![
                rows_member(shape.rows->0.cast_type()),
                aggregates_member(shape.aggregates->0.cast_type()),
            ],
        ),
        shape.cast_type().render() == "Tuple(rows Array("@ + shape.rows->0.cast_type().render()
            + "), aggregates "@ + shape.aggregates->0.cast_type().render() + ")"@,
{
    lemma_rows_and_aggregates_text(shape.rows->0.cast_type(), shape.aggregates->0.cast_type());
}

/// A column that is selected whole is cast to its own data type: classifying
/// the data type and asking for the shape of the whole gives the data type
/// back, where classifying loses nothing of it.
pub proof fn lemma_whole_column(
    data_type: DataTypeView,
    column: Seq<char>,
    return_type: Seq<char>,
    relationships: Seq<(Seq<char>, Seq<char>)>,
    config: ServerConfigView,
)
    requires
        lossless(data_type),
    ensures
        field_shape(
            column_definition(data_type, column, return_type, config.namespace_separator),
            None,
            relationships,
            config,
        ) == Ok::<FieldTypeStringView, TypeStringErrorView>(FieldTypeStringView::Scalar(data_type)),
        FieldTypeStringView::Scalar(data_type).cast_type() == data_type,
{
    lemma_classify_cast_type(
        data_type,
        return_type + config.namespace_separator + column,
        config.namespace_separator,
    );
}

/// The kind of a selection as a failure names it.
pub open spec fn selection_kind(nested: NestedFieldView) -> Seq<char> {
    match nested {
        NestedFieldView::Object(_) => "Object"@,
        NestedFieldView::Array(_) => "Array"@,
    }
}

/// Selecting a part of a scalar always fails: the failure names the kind of
/// the selection as what was expected, and the scalar as it is written as
/// what was found.
pub proof fn lemma_scalar_mismatch(
    data_type: DataTypeView,
    nested: NestedFieldView,
    relationships: Seq<(Seq<char>, Seq<char>)>,
    config: ServerConfigView,
)
    ensures
        nested_shape(TypeDefinitionView::Scalar(data_type), nested, relationships, config) == Err::<
            FieldTypeStringView,
            TypeStringErrorView,
        >(
            TypeStringErrorView::NestedFieldTypeMismatch {
                expected: selection_kind(nested),
                got: data_type.render(),
            },
        ),
{
}

/// A selection that does not fit what lies below any nullability always
/// fails: an array selection on what is no array, an object selection on what
/// is no object. The failure names the kind of the selection and the whole
/// definition's cast type as it is written.
pub proof fn lemma_shape_mismatch(
    definition: TypeDefinitionView,
    nested: NestedFieldView,
    relationships: Seq<(Seq<char>, Seq<char>)>,
    config: ServerConfigView,
)
    requires
        nested is Array ==> !(definition.non_nullable() is Array),
        nested is Object ==> !(definition.non_nullable() is Object),
    ensures
        nested_shape(definition, nested, relationships, config) == Err::<
            FieldTypeStringView,
            TypeStringErrorView,
        >(
            TypeStringErrorView::NestedFieldTypeMismatch {
                expected: selection_kind(nested),
                got: definition.cast_type().render(),
            },
        ),
{
}

/// An aggregate over a column that the schema knows fails where its function
/// is unknown: where the name is no function's, or the column's definition
/// has no such function. The failure names the collection, the column, the
/// column's data type and the function as it was asked for.
pub proof fn lemma_unknown_aggregate_function(
    table: Seq<char>,
    column: Seq<char>,
    function: Seq<char>,
    config: ServerConfigView,
)
    requires
        table_column(config, table, column) is Ok,
        AggregateFunction::named(function) matches Some(known) ==> column_definition(
            table_column(config, table, column)->Ok_0.1,
            column,
            table_column(config, table, column)->Ok_0.0,
            config.namespace_separator,
        ).aggregate_result(known) is None,
    ensures
        aggregate_type(table, AggregateView::SingleColumn { column, function }, config) == Err::<
            DataTypeView,
            TypeStringErrorView,
        >(
            TypeStringErrorView::UnknownAggregateFunction {
                table,
                column,
                data_type: table_column(config, table, column)->Ok_0.1,
                function,
            },
        ),
{
}

/// A count is a `UInt32`, of whatever collection and column.
pub proof fn lemma_count_type(
    table: Seq<char>,
    column: Seq<char>,
    distinct: bool,
    config: ServerConfigView,
)
    ensures
        aggregate_type(table, AggregateView::StarCount, config) == Ok::<
            DataTypeView,
            TypeStringErrorView,
        >(DataTypeView::UInt32),
        aggregate_type(table, AggregateView::ColumnCount { column, distinct }, config) == Ok::<
            DataTypeView,
            TypeStringErrorView,
        >(DataTypeView::UInt32),
{
}

/// A field that follows a relationship which is not declared fails, in a row
/// and in an object alike, and the failure names the relationship.
pub proof fn lemma_missing_relationship(
    table: Seq<char>,
    definition: TypeDefinitionView,
    declared: Seq<(Seq<char>, TypeDefinitionView)>,
    query: QueryView,
    relationship: Seq<char>,
    relationships: Seq<(Seq<char>, Seq<char>)>,
    config: ServerConfigView,
)
    requires
        lookup(relationships, relationship) is None,
    ensures
        row_field_shape(
            table,
            FieldView::Relationship { query: Box::new(query), relationship },
            relationships,
            config,
        ) == Err::<FieldTypeStringView, TypeStringErrorView>(
            TypeStringErrorView::MissingRelationship(relationship),
        ),
        object_field_shape(
            definition,
            declared,
            FieldView::Relationship { query: Box::new(query), relationship },
            relationships,
            config,
        ) == Err::<FieldTypeStringView, TypeStringErrorView>(
            TypeStringErrorView::MissingRelationship(relationship),
        ),
{
    assert(relationship_shape(query, relationship, relationships, config)
        == Err::<FieldTypeStringView, TypeStringErrorView>(
        TypeStringErrorView::MissingRelationship(relationship),
    ));
}

/// Whether the shape of a rowset follows a query: it has rows exactly where
/// the query selects fields, aggregates exactly where the query selects
/// aggregates, and in both the aliases of the request in the order of the
/// request, at every depth.
pub open spec fn follows_query(shape: RowsetTypeStringView, query: QueryView) -> bool
    decreases query, 1nat,
{
    &&& match query.fields {
        Some(fields) => shape.rows matches Some(row) && follows_fields(row.fields, fields),
        None => shape.rows is None,
    }
    &&& match query.aggregates {
        Some(aggregates) => shape.aggregates matches Some(typed) && names(typed.aggregates)
            == names(aggregates),
        None => shape.aggregates is None,
    }
}

/// Whether a list of field shapes follows a list of requested fields: as many
/// shapes as fields, each under the alias of the field at its place, and each
/// following its field.
pub open spec fn follows_fields(
    shapes: Seq<(Seq<char>, FieldTypeStringView)>,
    fields: Seq<(Seq<char>, FieldView)>,
) -> bool
    decreases fields, 1nat,
{
    &&& shapes.len() == fields.len()
    &&& forall|i: int|
        0 <= i < fields.len() ==> (#[trigger] shapes[i]).0 == fields[i].0 && follows_field(
            shapes[i].1,
            fields[i].1,
        )
}

/// Whether a field shape follows a requested field.
pub open spec fn follows_field(shape: FieldTypeStringView, field: FieldView) -> bool
    decreases field, 0nat,
{
    match field {
        FieldView::Column { column, fields } => match fields {
            None => shape is Scalar,
            Some(nested) => follows_selection(shape, nested),
        },
        FieldView::Relationship { query, relationship } => shape matches FieldTypeStringView::Relationship(
            rowset,
        ) && follows_query(*rowset, *query),
    }
}

/// Whether a field shape follows a selection of a part of a column.
pub open spec fn follows_selection(shape: FieldTypeStringView, nested: NestedFieldView) -> bool
    decreases nested, 0nat,
{
    match nested {
        NestedFieldView::Array(inner) => shape matches FieldTypeStringView::Array(element)
            && follows_selection(*element, *inner),
        NestedFieldView::Object(selected) => shape matches FieldTypeStringView::Object(shapes)
            && follows_fields(shapes, selected),
    }
}

/// The types of the aggregates of a query stand under the aliases of the
/// request, in the order of the request.
pub proof fn lemma_aggregates_in_order(
    table: Seq<char>,
    aggregates: Seq<(Seq<char>, AggregateView)>,
    config: ServerConfigView,
)
    ensures
        aggregates_shape(table, aggregates, config) matches Ok(typed) ==> names(typed.aggregates)
            == names(aggregates),
{
    let results = aggregate_results(table, aggregates, config);
    lemma_collected(results);
    if let Ok(typed) = aggregates_shape(table, aggregates, config) {
        assert forall|i: int| 0 <= i < aggregates.len() implies typed.aggregates[i].0
            == aggregates[i].0 by {
            assert(results[i] == Ok::<(Seq<char>, DataTypeView), TypeStringErrorView>(
                typed.aggregates[i],
            ));
        }
        assert(names(typed.aggregates) =~= names(aggregates));
    }
}

/// The shape of what a query returns follows the query: the aliases of the
/// result are those of the request, in the order of the request, at every
/// depth.
pub proof fn lemma_query_followed(
    table: Seq<char>,
    query: QueryView,
    relationships: Seq<(Seq<char>, Seq<char>)>,
    config: ServerConfigView,
)
    ensures
        rowset_shape(table, query, relationships, config) matches Ok(shape) ==> follows_query(
            shape,
            query,
        ),
    decreases query, 0nat,
{
    if let Some(fields) = query.fields {
        lemma_row_followed(table, fields, relationships, config);
    }
    if let Some(aggregates) = query.aggregates {
        lemma_aggregates_in_order(table, aggregates, config);
    }
}

/// The shape of a row follows the requested fields.
pub proof fn lemma_row_followed(
    table: Seq<char>,
    fields: Seq<(Seq<char>, FieldView)>,
    relationships: Seq<(Seq<char>, Seq<char>)>,
    config: ServerConfigView,
)
    ensures
        row_shape(table, fields, relationships, config) matches Ok(row) ==> follows_fields(
            row.fields,
            fields,
        ),
    decreases fields, 0nat,
{
    let results = row_results(table, fields, relationships, config);
    lemma_collected(results);
    if let Ok(row) = row_shape(table, fields, relationships, config) {
        assert forall|i: int| 0 <= i < fields.len() implies (#[trigger] row.fields[i]).0
            == fields[i].0 && follows_field(row.fields[i].1, fields[i].1) by {
            assert(results[i] == Ok::<(Seq<char>, FieldTypeStringView), TypeStringErrorView>(
                row.fields[i],
            ));
            lemma_row_field_followed(table, fields[i].1, relationships, config);
        }
    }
}

/// The shape of a field of a row follows the requested field.
pub proof fn lemma_row_field_followed(
    table: Seq<char>,
    field: FieldView,
    relationships: Seq<(Seq<char>, Seq<char>)>,
    config: ServerConfigView,
)
    ensures
        row_field_shape(table, field, relationships, config) matches Ok(shape) ==> follows_field(
            shape,
            field,
        ),
    decreases field, 0nat,
{
    match field {
        FieldView::Column { column, fields } => {
            if let Ok((return_type, data_type)) = table_column(config, table, column) {
                if let Some(nested) = fields {
                    lemma_selection_followed(
                        column_definition(data_type, column, return_type, config.namespace_separator),
                        nested,
                        relationships,
                        config,
                    );
                }
            }
        },
        FieldView::Relationship { query, relationship } => {
            lemma_relationship_followed(*query, relationship, relationships, config);
        },
    }
}

/// The shape of what a relationship leads to follows the query that is made
/// of it.
pub proof fn lemma_relationship_followed(
    query: QueryView,
    relationship: Seq<char>,
    relationships: Seq<(Seq<char>, Seq<char>)>,
    config: ServerConfigView,
)
    ensures
        relationship_shape(query, relationship, relationships, config) matches Ok(shape) ==> shape
            matches FieldTypeStringView::Relationship(rowset) && follows_query(*rowset, query),
    decreases query, 1nat,
{
    if let Some(target) = lookup(relationships, relationship) {
        lemma_query_followed(target, query, relationships, config);
    }
}

/// The shape of a value of which a part is selected follows the selection.
pub proof fn lemma_selection_followed(
    definition: TypeDefinitionView,
    nested: NestedFieldView,
    relationships: Seq<(Seq<char>, Seq<char>)>,
    config: ServerConfigView,
)
    ensures
        nested_shape(definition, nested, relationships, config) matches Ok(shape)
            ==> follows_selection(shape, nested),
    decreases nested, 0nat,
{
    match nested {
        NestedFieldView::Array(inner) => {
            if let TypeDefinitionView::Array { element_type } = definition.non_nullable() {
                lemma_selection_followed(*element_type, *inner, relationships, config);
            }
        },
        NestedFieldView::Object(selected) => {
            if let TypeDefinitionView::Object { name, fields } = definition.non_nullable() {
                let results = object_results(definition, fields, selected, relationships, config);
                lemma_collected(results);
                if let Ok(shapes) = collect(results) {
                    assert forall|i: int| 0 <= i < selected.len() implies (#[trigger] shapes[i]).0
                        == selected[i].0 && follows_field(shapes[i].1, selected[i].1) by {
                        assert(results[i] == Ok::<
                            (Seq<char>, FieldTypeStringView),
                            TypeStringErrorView,
                        >(shapes[i]));
                        lemma_object_field_followed(
                            definition,
                            fields,
                            selected[i].1,
                            relationships,
                            config,
                        );
                    }
                    assert(follows_fields(shapes, selected));
                }
            }
        },
    }
}

/// The shape of a selected field of an object follows the requested field.
pub proof fn lemma_object_field_followed(
    definition: TypeDefinitionView,
    declared: Seq<(Seq<char>, TypeDefinitionView)>,
    field: FieldView,
    relationships: Seq<(Seq<char>, Seq<char>)>,
    config: ServerConfigView,
)
    ensures
        object_field_shape(definition, declared, field, relationships, config) matches Ok(shape)
            ==> follows_field(shape, field),
    decreases field, 0nat,
{
    match field {
        FieldView::Column { column, fields } => {
            if let Some(field_definition) = lookup(declared, column) {
                if let Some(nested) = fields {
                    lemma_selection_followed(field_definition, nested, relationships, config);
                }
            }
        },
        FieldView::Relationship { query, relationship } => {
            lemma_relationship_followed(*query, relationship, relationships, config);
        },
    }
}

/// The members of the tuple that a list of field shapes is cast to carry the
/// aliases of the shapes, in double quotes and in the order of the list.
pub proof fn lemma_members_in_order(fields: Seq<(Seq<char>, FieldTypeStringView)>)
    requires
        fields.len() > 0,
    ensures
        fields_cast_type(fields) matches DataTypeView::Tuple(members) && members.len()
            == fields.len() && forall|i: int|
            0 <= i < fields.len() ==> (#[trigger] members[i]).0 == Some(
                IdentifierView::DoubleQuoted(fields[i].0),
            ),
{
}

} // verus!
