//! From a query request and the schema to the type that the query's output is
//! cast to.

use crate::aggregate::AggregateFunction;
use crate::config::ServerConfig;
use crate::datatype::{name_view, DataType, DataTypeView, Identifier, IdentifierView};
use crate::lookup::{find_key, names, stored_names};
use crate::request::{
    aggregates_view, fields_view, relationships_view, Aggregate, Field, NestedField, Query,
    Relationship,
};
use crate::translation::{
    aggregate_results, aggregate_type, aggregates_shape, field_shape, lemma_collect_all,
    lemma_collect_failure, mismatch, nested_shape, object_field_shape, object_results,
    relationship_shape, row_field_shape, row_results, row_shape, rowset_shape, table_column,
    under_alias,
};
use crate::type_definition::{column_definition, TypeDefinition};
use vstd::prelude::*;
use vstd::string::*;

verus! {

/// The shape of what a query returns of one collection: its rows, its
/// aggregates, or both.
#[derive(Debug, PartialEq, Eq)]
pub struct RowsetTypeString {
    pub rows: Option<RowTypeString>,
    pub aggregates: Option<AggregatesTypeString>,
}

/// The aggregates of a query, each under its alias, with the type it returns.
#[derive(Debug, PartialEq, Eq)]
pub struct AggregatesTypeString {
    pub aggregates: Vec<(String, DataType)>,
}

/// The fields of a row, each under its alias.
#[derive(Debug, PartialEq, Eq)]
pub struct RowTypeString {
    pub fields: Vec<(String, FieldTypeString)>,
}

/// The shape of one field of a result.
#[derive(Debug, PartialEq, Eq)]
pub enum FieldTypeString {
    /// The rows and aggregates that a relationship leads to.
    Relationship(RowsetTypeString),
    /// A list of elements of one shape.
    Array(Box<FieldTypeString>),
    /// The selected fields of an object, each under its alias.
    Object(Vec<(String, FieldTypeString)>),
    /// A value that is returned whole.
    Scalar(DataType),
}

/// Why a request cannot be translated.
#[derive(Debug, PartialEq, Eq)]
pub enum TypeStringError {
    UnknownTable { table: String },
    UnknownTableType { table: String },
    UnknownColumn { table: String, column: String },
    UnknownAggregateFunction { table: String, column: String, data_type: DataType, function: String },
    MissingRelationship(String),
    NotSupported(String),
    NestedFieldTypeMismatch { expected: String, got: String },
    MissingNestedField { field_name: String, object_type: String },
}

/// The mathematical value of a [`RowsetTypeString`].
pub struct RowsetTypeStringView {
    pub rows: Option<RowTypeStringView>,
    pub aggregates: Option<AggregatesTypeStringView>,
}

/// The mathematical value of an [`AggregatesTypeString`].
pub struct AggregatesTypeStringView {
    pub aggregates: Seq<(Seq<char>, DataTypeView)>,
}

/// The mathematical value of a [`RowTypeString`].
pub struct RowTypeStringView {
    pub fields: Seq<(Seq<char>, FieldTypeStringView)>,
}

/// The mathematical value of a [`FieldTypeString`].
pub enum FieldTypeStringView {
    Relationship(Box<RowsetTypeStringView>),
    Array(Box<FieldTypeStringView>),
    Object(Seq<(Seq<char>, FieldTypeStringView)>),
    Scalar(DataTypeView),
}

/// The mathematical value of a [`TypeStringError`].
pub enum TypeStringErrorView {
    UnknownTable { table: Seq<char> },
    UnknownTableType { table: Seq<char> },
    UnknownColumn { table: Seq<char>, column: Seq<char> },
    UnknownAggregateFunction {
        table: Seq<char>,
        column: Seq<char>,
        data_type: DataTypeView,
        function: Seq<char>,
    },
    MissingRelationship(Seq<char>),
    NotSupported(Seq<char>),
    NestedFieldTypeMismatch { expected: Seq<char>, got: Seq<char> },
    MissingNestedField { field_name: Seq<char>, object_type: Seq<char> },
}

impl View for TypeStringError {
    type V = TypeStringErrorView;

    open spec fn view(&self) -> TypeStringErrorView {
        match self {
            TypeStringError::UnknownTable { table } => TypeStringErrorView::UnknownTable {
                table: table@,
            },
            TypeStringError::UnknownTableType { table } => TypeStringErrorView::UnknownTableType {
                table: table@,
            },
            TypeStringError::UnknownColumn { table, column } => TypeStringErrorView::UnknownColumn {
                table: table@,
                column: column@,
            },
            TypeStringError::UnknownAggregateFunction { table, column, data_type, function } =>
                TypeStringErrorView::UnknownAggregateFunction {
                table: table@,
                column: column@,
                data_type: data_type@,
                function: function@,
            },
            TypeStringError::MissingRelationship(name) => TypeStringErrorView::MissingRelationship(
                name@,
            ),
            TypeStringError::NotSupported(what) => TypeStringErrorView::NotSupported(what@),
            TypeStringError::NestedFieldTypeMismatch { expected, got } =>
                TypeStringErrorView::NestedFieldTypeMismatch { expected: expected@, got: got@ },
            TypeStringError::MissingNestedField { field_name, object_type } =>
                TypeStringErrorView::MissingNestedField {
                field_name: field_name@,
                object_type: object_type@,
            },
        }
    }
}

/// The value of a list of field shapes.
pub open spec fn shapes_view(fields: Vec<(String, FieldTypeString)>) -> Seq<
    (Seq<char>, FieldTypeStringView),
>
    decreases fields,
{
    Seq::new(
        fields.len() as nat,
        |i: int|
            if 0 <= i < fields.len() {
                (fields[i].0@, fields[i].1.model())
            } else {
                (Seq::empty(), FieldTypeStringView::Scalar(DataTypeView::Nothing))
            },
    )
}

impl View for AggregatesTypeString {
    type V = AggregatesTypeStringView;

    open spec fn view(&self) -> AggregatesTypeStringView {
        AggregatesTypeStringView {
            aggregates: Seq::new(
                self.aggregates.len() as nat,
                |i: int| (self.aggregates[i].0@, self.aggregates[i].1@),
            ),
        }
    }
}

impl RowTypeString {
    /// The value of this row shape as a tree over sequences.
    pub open spec fn model(self) -> RowTypeStringView
        decreases self,
    {
        RowTypeStringView { fields: shapes_view(self.fields) }
    }
}

impl RowsetTypeString {
    /// The value of this shape as a tree over sequences.
    pub open spec fn model(self) -> RowsetTypeStringView
        decreases self,
    {
        RowsetTypeStringView {
            rows: match self.rows {
                Some(rows) => Some(rows.model()),
                None => None,
            },
            aggregates: match self.aggregates {
                Some(aggregates) => Some(aggregates@),
                None => None,
            },
        }
    }
}

impl FieldTypeString {
    /// The value of this shape as a tree over sequences.
    pub open spec fn model(self) -> FieldTypeStringView
        decreases self,
    {
        match self {
            FieldTypeString::Relationship(rowset) => FieldTypeStringView::Relationship(
                Box::new(rowset.model()),
            ),
            FieldTypeString::Array(inner) => FieldTypeStringView::Array(Box::new(inner.model())),
            FieldTypeString::Object(fields) => FieldTypeStringView::Object(shapes_view(fields)),
            FieldTypeString::Scalar(t) => FieldTypeStringView::Scalar(t@),
        }
    }
}

impl View for RowTypeString {
    type V = RowTypeStringView;

    open spec fn view(&self) -> RowTypeStringView {
        self.model()
    }
}

impl View for RowsetTypeString {
    type V = RowsetTypeStringView;

    open spec fn view(&self) -> RowsetTypeStringView {
        self.model()
    }
}

impl View for FieldTypeString {
    type V = FieldTypeStringView;

    open spec fn view(&self) -> FieldTypeStringView {
        self.model()
    }
}

/// The type that stands where a tuple would have no members, which ClickHouse
/// does not accept: a map from nothing to nothing.
pub open spec fn empty_marker() -> DataTypeView {
    DataTypeView::MapOf {
        key: Box::new(DataTypeView::Nothing),
        value: Box::new(DataTypeView::Nothing),
    }
}

/// The members of the tuple of a list of field shapes: each alias in double
/// quotes with the cast type of its shape, in the order of the list.
pub open spec fn quoted_members(fields: Seq<(Seq<char>, FieldTypeStringView)>) -> Seq<
    (Option<IdentifierView>, DataTypeView),
>
    decreases fields, 0nat,
{
    Seq::new(
        fields.len(),
        |i: int|
            if 0 <= i < fields.len() {
                (Some(IdentifierView::DoubleQuoted(fields[i].0)), fields[i].1.cast_type())
            } else {
                (None, DataTypeView::Nothing)
            },
    )
}

/// The cast type of a list of field shapes: the tuple of its members, or the
/// empty marker where there is none.
pub open spec fn fields_cast_type(fields: Seq<(Seq<char>, FieldTypeStringView)>) -> DataTypeView
    decreases fields, 1nat,
{
    if fields.len() == 0 {
        empty_marker()
    } else {
        DataTypeView::Tuple(quoted_members(fields))
    }
}

impl FieldTypeStringView {
    /// The type that a field of this shape is cast to.
    pub open spec fn cast_type(self) -> DataTypeView
        decreases self, 0nat,
    {
        match self {
            FieldTypeStringView::Relationship(rowset) => rowset.cast_type(),
            FieldTypeStringView::Array(inner) => DataTypeView::Array(Box::new(inner.cast_type())),
            FieldTypeStringView::Object(fields) => fields_cast_type(fields),
            FieldTypeStringView::Scalar(t) => t,
        }
    }
}

impl RowTypeStringView {
    /// The type that a row of this shape is cast to.
    pub open spec fn cast_type(self) -> DataTypeView
        decreases self, 0nat,
    {
        fields_cast_type(self.fields)
    }
}

impl AggregatesTypeStringView {
    /// The members of the tuple of these aggregates: each alias in double
    /// quotes with the type of its aggregate, in order.
    pub open spec fn members(self) -> Seq<(Option<IdentifierView>, DataTypeView)> {
        Seq::new(
            self.aggregates.len(),
            |i: int|
                (Some(IdentifierView::DoubleQuoted(self.aggregates[i].0)), self.aggregates[i].1),
        )
    }

    /// The type that these aggregates are cast to.
    pub open spec fn cast_type(self) -> DataTypeView {
        if self.aggregates.len() == 0 {
            empty_marker()
        } else {
            DataTypeView::Tuple(self.members())
        }
    }
}

/// The member `rows` of the type of a rowset: a list of rows.
pub open spec fn rows_member(row: DataTypeView) -> (Option<IdentifierView>, DataTypeView) {
    (Some(IdentifierView::Unquoted("rows"@)), DataTypeView::Array(Box::new(row)))
}

/// The member `aggregates` of the type of a rowset.
pub open spec fn aggregates_member(aggregates: DataTypeView) -> (
    Option<IdentifierView>,
    DataTypeView,
) {
    (Some(IdentifierView::Unquoted("aggregates"@)), aggregates)
}

impl RowsetTypeStringView {
    /// The type that a rowset of this shape is cast to: a tuple of its rows
    /// and its aggregates, as far as it has them, or the empty marker where it
    /// has neither.
    pub open spec fn cast_type(self) -> DataTypeView
        decreases self, 0nat,
    {
        match (self.rows, self.aggregates) {
            (None, None) => empty_marker(),
            (None, Some(aggregates)) => DataTypeView::Tuple(
                seq![aggregates_member(aggregates.cast_type())],
            ),
            (Some(rows), None) => DataTypeView::Tuple(seq![rows_member(rows.cast_type())]),
            (Some(rows), Some(aggregates)) => DataTypeView::Tuple(
                seq![rows_member(rows.cast_type()), aggregates_member(aggregates.cast_type())],
            ),
        }
    }
}

/// The value of a shape or of the failure to find one.
pub open spec fn result_view<T: View>(result: Result<T, TypeStringError>) -> Result<
    T::V,
    TypeStringErrorView,
> {
    match result {
        Ok(value) => Ok(value@),
        Err(error) => Err(error@),
    }
}

/// The name of the type of the rows of a collection.
pub fn get_return_type<'a>(table_alias: &str, config: &'a ServerConfig) -> (found: Result<
    &'a String,
    TypeStringError,
>)
    ensures
        match found {
            Ok(return_type) => config@.return_type(table_alias@) == Some(return_type@),
            Err(error) => config@.return_type(table_alias@) is None && error@
                == (TypeStringErrorView::UnknownTable { table: table_alias@ }),
        },
{
    match config.return_type(table_alias) {
        Some(return_type) => Ok(return_type),
        None => Err(TypeStringError::UnknownTable { table: String::from_str(table_alias) }),
    }
}

/// The data type of a column of a row type.
pub fn get_column<'a>(column_alias: &str, return_type: &str, config: &'a ServerConfig) -> (found:
    Result<&'a DataType, TypeStringError>)
    ensures
        match config@.columns(return_type@) {
            None => found matches Err(error) && error@ == (TypeStringErrorView::UnknownTableType {
                table: return_type@,
            }),
            Some(columns) => if columns.dom().contains(column_alias@) {
                found matches Ok(data_type) && data_type@ == columns[column_alias@]
            } else {
                found matches Err(error) && error@ == (TypeStringErrorView::UnknownColumn {
                    table: return_type@,
                    column: column_alias@,
                })
            },
        },
{
    match config.table_type(return_type) {
        None => Err(TypeStringError::UnknownTableType { table: String::from_str(return_type) }),
        Some(table_type) => match table_type.column(column_alias) {
            Some(data_type) => Ok(data_type),
            None => Err(
                TypeStringError::UnknownColumn {
                    table: String::from_str(return_type),
                    column: String::from_str(column_alias),
                },
            ),
        },
    }
}

/// The definition of a column of a collection, and the column's data type.
fn column_of_table<'a>(table_alias: &str, column_alias: &str, config: &'a ServerConfig) -> (found:
    Result<(TypeDefinition, &'a DataType), TypeStringError>)
    ensures
        match found {
            Ok((definition, data_type)) => table_column(config@, table_alias@, column_alias@)
                matches Ok((return_type, column_type)) && column_type == data_type@ && definition@
                == column_definition(
                column_type,
                column_alias@,
                return_type,
                config@.namespace_separator,
            ),
            Err(error) => table_column(config@, table_alias@, column_alias@) == Err::<
                (Seq<char>, DataTypeView),
                TypeStringErrorView,
            >(error@),
        },
{
    let return_type = match get_return_type(table_alias, config) {
        Ok(return_type) => return_type,
        Err(error) => {
            return Err(error);
        },
    };
    let data_type = match get_column(column_alias, return_type.as_str(), config) {
        Ok(data_type) => data_type,
        Err(error) => {
            return Err(error);
        },
    };
    let definition = TypeDefinition::from_table_column(
        data_type,
        column_alias,
        return_type.as_str(),
        config.namespace_separator.as_str(),
    );
    Ok((definition, data_type))
}

/// The type that one aggregate of a collection returns.
fn type_of_aggregate(table_alias: &str, aggregate: &Aggregate, config: &ServerConfig) -> (result:
    Result<DataType, TypeStringError>)
    ensures
        result_view(result) == aggregate_type(table_alias@, aggregate@, config@),
{
    match aggregate {
        Aggregate::StarCount => Ok(DataType::UInt32),
        Aggregate::ColumnCount { .. } => Ok(DataType::UInt32),
        Aggregate::SingleColumn { column, function } => {
            let (definition, data_type) = match column_of_table(
                table_alias,
                column.as_str(),
                config,
            ) {
                Ok(found) => found,
                Err(error) => {
                    return Err(error);
                },
            };
            let known = match AggregateFunction::parse(function.as_str()) {
                Some(known) => definition.aggregate_result_type(known),
                None => None,
            };
            match known {
                Some(result) => Ok(result),
                None => Err(
                    TypeStringError::UnknownAggregateFunction {
                        table: String::from_str(table_alias),
                        column: column.clone(),
                        data_type: data_type.duplicate(),
                        function: function.clone(),
                    },
                ),
            }
        },
    }
}

impl AggregatesTypeString {
    /// The types of the aggregates of a query over a collection, in the order
    /// of the request; the first failure among them otherwise.
    pub fn new(table_alias: &str, aggregates: &Vec<(String, Aggregate)>, config: &ServerConfig) -> (result:
        Result<Self, TypeStringError>)
        ensures
            result_view(result) == aggregates_shape(
                table_alias@,
                aggregates_view(aggregates@),
                config@,
            ),
    {
        let ghost results = aggregate_results(table_alias@, aggregates_view(aggregates@), config@);
        let mut typed: Vec<(String, DataType)> = Vec::new();
        let mut i: usize = 0;
        while i < aggregates.len()
            invariant
                i <= aggregates.len(),
                typed.len() == i,
                results == aggregate_results(table_alias@, aggregates_view(aggregates@), config@),
                forall|j: int|
                    0 <= j < i ==> #[trigger] results[j] == Ok::<
                        (Seq<char>, DataTypeView),
                        TypeStringErrorView,
                    >((typed[j].0@, typed[j].1@)),
            decreases aggregates.len() - i,
        {
            assert(results[i as int] == under_alias(
                aggregates[i as int].0@,
                aggregate_type(table_alias@, aggregates[i as int].1@, config@),
            ));
            match type_of_aggregate(table_alias, &aggregates[i].1, config) {
                Ok(data_type) => {
                    typed.push((aggregates[i].0.clone(), data_type));
                },
                Err(error) => {
                    proof {
                        lemma_collect_failure(results, i as int);
                    }
                    return Err(error);
                },
            }
            i += 1;
        }
        let shape = AggregatesTypeString { aggregates: typed };
        proof {
            lemma_collect_all(results, shape@.aggregates);
        }
        Ok(shape)
    }
}

/// The relationships that a request may follow: each name with the
/// collection that it leads to.
pub open spec fn named_targets(relationships: &Vec<(String, Relationship)>) -> Seq<
    (Seq<char>, Seq<char>),
> {
    relationships_view(relationships@)
}

/// The shape of what a query returns of the collection that a relationship
/// leads to.
fn relationship_field(
    query: &Query,
    relationship: &String,
    relationships: &Vec<(String, Relationship)>,
    config: &ServerConfig,
) -> (result: Result<FieldTypeString, TypeStringError>)
    ensures
        result_view(result) == relationship_shape(
            query@,
            relationship@,
            named_targets(relationships),
            config@,
        ),
    decreases query, 1nat,
{
    assert(stored_names(relationships@) =~= names(named_targets(relationships)));
    match find_key(relationships, relationship.as_str()) {
        None => Err(TypeStringError::MissingRelationship(relationship.clone())),
        Some(i) => {
            let target = &relationships[i].1.target_collection;
            match RowsetTypeString::new(target.as_str(), query, relationships, config) {
                Ok(rowset) => Ok(FieldTypeString::Relationship(rowset)),
                Err(error) => Err(error),
            }
        },
    }
}

/// The shape of one field of a row of a collection.
fn row_field(
    table_alias: &str,
    field: &Field,
    relationships: &Vec<(String, Relationship)>,
    config: &ServerConfig,
) -> (result: Result<FieldTypeString, TypeStringError>)
    ensures
        result_view(result) == row_field_shape(
            table_alias@,
            field@,
            named_targets(relationships),
            config@,
        ),
    decreases field, 0nat,
{
    match field {
        Field::Column { column, fields } => {
            let (definition, _) = match column_of_table(table_alias, column.as_str(), config) {
                Ok(found) => found,
                Err(error) => {
                    return Err(error);
                },
            };
            match fields {
                None => Ok(FieldTypeString::Scalar(definition.cast_type())),
                Some(nested) => FieldTypeString::select(&definition, nested, relationships, config),
            }
        },
        Field::Relationship { query, relationship } => relationship_field(
            query,
            relationship,
            relationships,
            config,
        ),
    }
}

/// The shape of one selected field of an object. `object` is the object
/// itself, `definition` the definition that it was found in.
fn object_field(
    definition: &TypeDefinition,
    object: &TypeDefinition,
    field: &Field,
    relationships: &Vec<(String, Relationship)>,
    config: &ServerConfig,
) -> (result: Result<FieldTypeString, TypeStringError>)
    requires
        object is Object,
    ensures
        result_view(result) == object_field_shape(
            definition@,
            object@->fields,
            field@,
            named_targets(relationships),
            config@,
        ),
    decreases field, 0nat,
{
    match field {
        Field::Column { column, fields } => {
            let declared = match object {
                TypeDefinition::Object { name, fields } => fields,
                _ => {
                    return Err(TypeStringError::NotSupported(String::new()));
                },
            };
            assert(stored_names(declared@) =~= names(object@->fields));
            match find_key(declared, column.as_str()) {
                None => Err(
                    TypeStringError::MissingNestedField {
                        field_name: column.clone(),
                        object_type: definition.cast_type().render(),
                    },
                ),
                Some(i) => match fields {
                    None => Ok(FieldTypeString::Scalar(declared[i].1.cast_type())),
                    Some(nested) => FieldTypeString::select(
                        &declared[i].1,
                        nested,
                        relationships,
                        config,
                    ),
                },
            }
        },
        Field::Relationship { query, relationship } => relationship_field(
            query,
            relationship,
            relationships,
            config,
        ),
    }
}

/// The failure of a selection that does not fit the definition it is applied
/// to.
fn mismatch_error(definition: &TypeDefinition, expected: &str) -> (error: TypeStringError)
    ensures
        error@ == mismatch(definition@, expected@),
{
    TypeStringError::NestedFieldTypeMismatch {
        expected: String::from_str(expected),
        got: definition.cast_type().render(),
    }
}

impl FieldTypeString {
    /// The shape of a value of a definition under a selection, or the reason
    /// why the selection cannot be made. Without a selection the value is
    /// returned whole.
    pub fn new(
        type_definition: &TypeDefinition,
        fields: Option<&NestedField>,
        relationships: &Vec<(String, Relationship)>,
        config: &ServerConfig,
    ) -> (result: Result<Self, TypeStringError>)
        ensures
            result_view(result) == field_shape(
                type_definition@,
                match fields {
                    Some(nested) => Some(nested@),
                    None => None,
                },
                named_targets(relationships),
                config@,
            ),
    {
        match fields {
            None => Ok(FieldTypeString::Scalar(type_definition.cast_type())),
            Some(nested) => Self::select(type_definition, nested, relationships, config),
        }
    }

    /// The shape of a value of a definition of which a part is selected.
    pub fn select(
        type_definition: &TypeDefinition,
        nested: &NestedField,
        relationships: &Vec<(String, Relationship)>,
        config: &ServerConfig,
    ) -> (result: Result<Self, TypeStringError>)
        ensures
            result_view(result) == nested_shape(
                type_definition@,
                nested@,
                named_targets(relationships),
                config@,
            ),
        decreases nested, 0nat,
    {
        let below = type_definition.non_nullable();
        match nested {
            NestedField::Array(inner) => match below {
                TypeDefinition::Array { element_type } => {
                    match Self::select(element_type, inner, relationships, config) {
                        Ok(element) => Ok(FieldTypeString::Array(Box::new(element))),
                        Err(error) => Err(error),
                    }
                },
                _ => Err(mismatch_error(type_definition, "Array")),
            },
            NestedField::Object(selected) => match below {
                TypeDefinition::Object { .. } => {
                    let ghost results = object_results(
                        type_definition@,
                        below@->fields,
                        fields_view(*selected),
                        named_targets(relationships),
                        config@,
                    );
                    let mut shapes: Vec<(String, FieldTypeString)> = Vec::new();
                    let mut i: usize = 0;
                    while i < selected.len()
                        invariant
                            *nested == NestedField::Object(*selected),
                            below is Object,
                            below@ == type_definition@.non_nullable(),
                            i <= selected.len(),
                            shapes.len() == i,
                            results == object_results(
                                type_definition@,
                                below@->fields,
                                fields_view(*selected),
                                named_targets(relationships),
                                config@,
                            ),
                            forall|j: int|
                                0 <= j < i ==> #[trigger] results[j] == Ok::<
                                    (Seq<char>, FieldTypeStringView),
                                    TypeStringErrorView,
                                >((shapes[j].0@, shapes[j].1@)),
                        decreases selected.len() - i,
                    {
                        assert(nested->Object_0 == *selected);
                        assert(decreases_to!(*selected => selected[i as int]));
                        assert(results[i as int] == under_alias(
                            selected[i as int].0@,
                            object_field_shape(
                                type_definition@,
                                below@->fields,
                                selected[i as int].1@,
                                named_targets(relationships),
                                config@,
                            ),
                        ));
                        match object_field(
                            type_definition,
                            below,
                            &selected[i].1,
                            relationships,
                            config,
                        ) {
                            Ok(shape) => {
                                shapes.push((selected[i].0.clone(), shape));
                            },
                            Err(error) => {
                                proof {
                                    lemma_collect_failure(results, i as int);
                                }
                                return Err(error);
                            },
                        }
                        i += 1;
                    }
                    let shape = FieldTypeString::Object(shapes);
                    proof {
                        assert(shape@ == FieldTypeStringView::Object(shapes_view(shapes)));
                        lemma_collect_all(results, shapes_view(shapes));
                    }
                    Ok(shape)
                },
                _ => Err(mismatch_error(type_definition, "Object")),
            },
        }
    }
}

impl RowTypeString {
    /// The shape of a row of a collection: the shape of each requested field
    /// under its alias, in the order of the request; the first failure among
    /// them otherwise.
    pub fn new(
        table_alias: &str,
        fields: &Vec<(String, Field)>,
        relationships: &Vec<(String, Relationship)>,
        config: &ServerConfig,
    ) -> (result: Result<Self, TypeStringError>)
        ensures
            result_view(result) == row_shape(
                table_alias@,
                fields_view(*fields),
                named_targets(relationships),
                config@,
            ),
        decreases fields, 0nat,
    {
        let ghost results = row_results(
            table_alias@,
            fields_view(*fields),
            named_targets(relationships),
            config@,
        );
        let mut shapes: Vec<(String, FieldTypeString)> = Vec::new();
        let mut i: usize = 0;
        while i < fields.len()
            invariant
                i <= fields.len(),
                shapes.len() == i,
                results == row_results(
                    table_alias@,
                    fields_view(*fields),
                    named_targets(relationships),
                    config@,
                ),
                forall|j: int|
                    0 <= j < i ==> #[trigger] results[j] == Ok::<
                        (Seq<char>, FieldTypeStringView),
                        TypeStringErrorView,
                    >((shapes[j].0@, shapes[j].1@)),
            decreases fields.len() - i,
        {
            assert(decreases_to!(*fields => fields[i as int]));
            assert(results[i as int] == under_alias(
                fields[i as int].0@,
                row_field_shape(
                    table_alias@,
                    fields[i as int].1@,
                    named_targets(relationships),
                    config@,
                ),
            ));
            match row_field(table_alias, &fields[i].1, relationships, config) {
                Ok(shape) => {
                    shapes.push((fields[i].0.clone(), shape));
                },
                Err(error) => {
                    proof {
                        lemma_collect_failure(results, i as int);
                    }
                    return Err(error);
                },
            }
            i += 1;
        }
        let shape = RowTypeString { fields: shapes };
        proof {
            lemma_collect_all(results, shape@.fields);
        }
        Ok(shape)
    }
}

impl RowsetTypeString {
    /// The shape of what a query returns of a collection, or the reason why
    /// the query cannot be translated: the first failure among its fields,
    /// else the first among its aggregates.
    pub fn new(
        table_alias: &str,
        query: &Query,
        relationships: &Vec<(String, Relationship)>,
        config: &ServerConfig,
    ) -> (result: Result<Self, TypeStringError>)
        ensures
            result_view(result) == rowset_shape(
                table_alias@,
                query@,
                named_targets(relationships),
                config@,
            ),
        decreases query, 0nat,
    {
        let rows = match &query.fields {
            Some(fields) => match RowTypeString::new(table_alias, fields, relationships, config) {
                Ok(row) => Some(row),
                Err(error) => {
                    return Err(error);
                },
            },
            None => None,
        };
        let aggregates = match &query.aggregates {
            Some(aggregates) => match AggregatesTypeString::new(table_alias, aggregates, config) {
                Ok(typed) => Some(typed),
                Err(error) => {
                    return Err(error);
                },
            },
            None => None,
        };
        Ok(RowsetTypeString { rows, aggregates })
    }
}

/// The type that stands where a tuple would have no members.
pub fn empty_marker_type() -> (marker: DataType)
    ensures
        marker@ == empty_marker(),
{
    proof {
        reveal_with_fuel(DataType::model, 2);
    }
    DataType::MapOf { key: Box::new(DataType::Nothing), value: Box::new(DataType::Nothing) }
}

/// The cast type of a list of field shapes.
fn fields_type(fields: &Vec<(String, FieldTypeString)>) -> (data_type: DataType)
    ensures
        data_type@ == fields_cast_type(shapes_view(*fields)),
    decreases fields, 1nat,
{
    if fields.len() == 0 {
        return empty_marker_type();
    }
    let mut members: Vec<(Option<Identifier>, DataType)> = Vec::new();
    let mut i: usize = 0;
    while i < fields.len()
        invariant
            i <= fields.len(),
            members.len() == i,
            forall|j: int|
                0 <= j < i ==> name_view((#[trigger] members[j]).0) == Some(
                    IdentifierView::DoubleQuoted(fields[j].0@),
                ) && members[j].1@ == fields[j].1@.cast_type(),
        decreases fields.len() - i,
    {
        assert(decreases_to!(*fields => fields[i as int]));
        let member = fields[i].1.cast_type();
        members.push((Some(Identifier::DoubleQuoted(fields[i].0.clone())), member));
        i += 1;
    }
    let data_type = DataType::Tuple(members);
    assert(data_type@->Tuple_0 =~= quoted_members(shapes_view(*fields)));
    data_type
}

impl FieldTypeString {
    /// The type that a field of this shape is cast to.
    pub fn cast_type(&self) -> (data_type: DataType)
        ensures
            data_type@ == self@.cast_type(),
        decreases self, 0nat,
    {
        match self {
            FieldTypeString::Relationship(rowset) => rowset.cast_type(),
            FieldTypeString::Array(inner) => DataType::Array(Box::new(inner.cast_type())),
            FieldTypeString::Object(fields) => fields_type(fields),
            FieldTypeString::Scalar(t) => t.duplicate(),
        }
    }

    /// The type that a field of this shape is cast to.
    pub fn into_cast_type(self) -> (data_type: DataType)
        ensures
            data_type@ == self@.cast_type(),
    {
        self.cast_type()
    }
}

impl RowTypeString {
    /// The type that a row of this shape is cast to.
    pub fn cast_type(&self) -> (data_type: DataType)
        ensures
            data_type@ == self@.cast_type(),
        decreases self, 0nat,
    {
        fields_type(&self.fields)
    }

    /// The type that a row of this shape is cast to.
    pub fn into_cast_type(self) -> (data_type: DataType)
        ensures
            data_type@ == self@.cast_type(),
    {
        self.cast_type()
    }
}

impl AggregatesTypeString {
    /// The type that these aggregates are cast to.
    pub fn cast_type(&self) -> (data_type: DataType)
        ensures
            data_type@ == self@.cast_type(),
    {
        if self.aggregates.len() == 0 {
            return empty_marker_type();
        }
        let mut members: Vec<(Option<Identifier>, DataType)> = Vec::new();
        let mut i: usize = 0;
        while i < self.aggregates.len()
            invariant
                i <= self.aggregates.len(),
                members.len() == i,
                forall|j: int|
                    0 <= j < i ==> name_view((#[trigger] members[j]).0) == Some(
                        IdentifierView::DoubleQuoted(self.aggregates[j].0@),
                    ) && members[j].1@ == self.aggregates[j].1@,
            decreases self.aggregates.len() - i,
        {
            members.push(
                (
                    Some(Identifier::DoubleQuoted(self.aggregates[i].0.clone())),
                    self.aggregates[i].1.duplicate(),
                ),
            );
            i += 1;
        }
        let data_type = DataType::Tuple(members);
        assert(data_type@->Tuple_0 =~= self@.members());
        data_type
    }

    /// The type that these aggregates are cast to.
    pub fn into_cast_type(self) -> (data_type: DataType)
        ensures
            data_type@ == self@.cast_type(),
    {
        self.cast_type()
    }
}

/// The member `rows` of the type of a rowset.
fn rows_member_of(row: DataType) -> (member: (Option<Identifier>, DataType))
    ensures
        name_view(member.0) == rows_member(row@).0,
        member.1@ == rows_member(row@).1,
{
    (Some(Identifier::Unquoted(String::from_str("rows"))), DataType::Array(Box::new(row)))
}

/// The member `aggregates` of the type of a rowset.
fn aggregates_member_of(aggregates: DataType) -> (member: (Option<Identifier>, DataType))
    ensures
        name_view(member.0) == aggregates_member(aggregates@).0,
        member.1@ == aggregates_member(aggregates@).1,
{
    (Some(Identifier::Unquoted(String::from_str("aggregates"))), aggregates)
}

impl RowsetTypeString {
    /// The type that the output of the query is cast to.
    pub fn cast_type(&self) -> (data_type: DataType)
        ensures
            data_type@ == self@.cast_type(),
        decreases self, 0nat,
    {
        let mut members: Vec<(Option<Identifier>, DataType)> = Vec::new();
        match &self.rows {
            Some(rows) => {
                members.push(rows_member_of(rows.cast_type()));
            },
            None => {},
        }
        match &self.aggregates {
            Some(aggregates) => {
                members.push(aggregates_member_of(aggregates.cast_type()));
            },
            None => {},
        }
        if members.len() == 0 {
            return empty_marker_type();
        }
        let data_type = DataType::Tuple(members);
        assert(data_type@->Tuple_0 =~= self@.cast_type()->Tuple_0);
        data_type
    }

    /// The type that the output of the query is cast to.
    pub fn into_cast_type(self) -> (data_type: DataType)
        ensures
            data_type@ == self@.cast_type(),
    {
        self.cast_type()
    }
}

impl TypeStringErrorView {
    /// The failure in words.
    pub open spec fn message(self) -> Seq<char> {
        match self {
            TypeStringErrorView::UnknownTable { table } => "Unknown table: "@ + table,
            TypeStringErrorView::UnknownTableType { table } => "Unknown table type: "@ + table,
            TypeStringErrorView::UnknownColumn { table, column } => "Unknown column: "@ + column
                + " in table: "@ + table,
            TypeStringErrorView::UnknownAggregateFunction { table, column, data_type, function } =>
                "Unknown aggregate function: "@ + function + " for column "@ + column
                + " of type: "@ + data_type.render() + " in table "@ + table,
            TypeStringErrorView::MissingRelationship(name) => "Missing relationship: "@ + name,
            TypeStringErrorView::NotSupported(what) => "Not supported: "@ + what,
            TypeStringErrorView::NestedFieldTypeMismatch { expected, got } =>
                "Nested field selector type mismatch, expected: "@ + expected + ", got "@ + got,
            TypeStringErrorView::MissingNestedField { field_name, object_type } => "Missing field "@
                + field_name + " in object type "@ + object_type,
        }
    }
}

impl TypeStringError {
    /// The failure in words.
    pub fn message(&self) -> (text: String)
        ensures
            text@ == self@.message(),
    {
        match self {
            TypeStringError::UnknownTable { table } => {
                let mut text = String::from_str("Unknown table: ");
                text.append(table.as_str());
                text
            },
            TypeStringError::UnknownTableType { table } => {
                let mut text = String::from_str("Unknown table type: ");
                text.append(table.as_str());
                text
            },
            TypeStringError::UnknownColumn { table, column } => {
                let mut text = String::from_str("Unknown column: ");
                text.append(column.as_str());
                text.append(" in table: ");
                text.append(table.as_str());
                text
            },
            TypeStringError::UnknownAggregateFunction { table, column, data_type, function } => {
                let mut text = String::from_str("Unknown aggregate function: ");
                text.append(function.as_str());
                text.append(" for column ");
                text.append(column.as_str());
                text.append(" of type: ");
                text.append(data_type.render().as_str());
                text.append(" in table ");
                text.append(table.as_str());
                text
            },
            TypeStringError::MissingRelationship(name) => {
                let mut text = String::from_str("Missing relationship: ");
                text.append(name.as_str());
                text
            },
            TypeStringError::NotSupported(what) => {
                let mut text = String::from_str("Not supported: ");
                text.append(what.as_str());
                text
            },
            TypeStringError::NestedFieldTypeMismatch { expected, got } => {
                let mut text = String::from_str("Nested field selector type mismatch, expected: ");
                text.append(expected.as_str());
                text.append(", got ");
                text.append(got.as_str());
                text
            },
            TypeStringError::MissingNestedField { field_name, object_type } => {
                let mut text = String::from_str("Missing field ");
                text.append(field_name.as_str());
                text.append(" in object type ");
                text.append(object_type.as_str());
                text
            },
        }
    }
}

} // verus!
