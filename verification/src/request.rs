//! The part of a query request that decides the shape of its result.

use vstd::prelude::*;

verus! {

/// What a query asks of one collection: fields of each row, aggregates over
/// all rows, or both. Each list is in the order of the request.
#[derive(Debug, PartialEq, Eq)]
pub struct Query {
    pub aggregates: Option<Vec<(String, Aggregate)>>,
    pub fields: Option<Vec<(String, Field)>>,
}

/// One aggregate of a request.
#[derive(Debug, PartialEq, Eq)]
pub enum Aggregate {
    /// The number of rows in which a column is not null.
    ColumnCount { column: String, distinct: bool },
    /// A function over the values of one column.
    SingleColumn { column: String, function: String },
    /// The number of rows.
    StarCount,
}

/// One field of a request.
#[derive(Debug, PartialEq, Eq)]
pub enum Field {
    /// A column, whole or in part.
    Column { column: String, fields: Option<NestedField> },
    /// The rows that a relationship leads to.
    Relationship { query: Box<Query>, relationship: String },
}

/// The part of a column that a request selects.
#[derive(Debug, PartialEq, Eq)]
pub enum NestedField {
    /// Fields of an object, in the order of the request.
    Object(Vec<(String, Field)>),
    /// A part of each element of an array.
    Array(Box<NestedField>),
}

/// A relationship that a request may follow.
#[derive(Debug, PartialEq, Eq)]
pub struct Relationship {
    pub target_collection: String,
}

/// The mathematical value of a [`Query`].
pub struct QueryView {
    pub aggregates: Option<Seq<(Seq<char>, AggregateView)>>,
    pub fields: Option<Seq<(Seq<char>, FieldView)>>,
}

/// The mathematical value of an [`Aggregate`].
pub enum AggregateView {
    ColumnCount { column: Seq<char>, distinct: bool },
    SingleColumn { column: Seq<char>, function: Seq<char> },
    StarCount,
}

/// The mathematical value of a [`Field`].
pub enum FieldView {
    Column { column: Seq<char>, fields: Option<NestedFieldView> },
    Relationship { query: Box<QueryView>, relationship: Seq<char> },
}

/// The mathematical value of a [`NestedField`].
pub enum NestedFieldView {
    Object(Seq<(Seq<char>, FieldView)>),
    Array(Box<NestedFieldView>),
}

impl View for Aggregate {
    type V = AggregateView;

    open spec fn view(&self) -> AggregateView {
        match self {
            Aggregate::ColumnCount { column, distinct } => AggregateView::ColumnCount {
                column: column@,
                distinct: *distinct,
            },
            Aggregate::SingleColumn { column, function } => AggregateView::SingleColumn {
                column: column@,
                function: function@,
            },
            Aggregate::StarCount => AggregateView::StarCount,
        }
    }
}

/// The value of a list of aggregates.
pub open spec fn aggregates_view(aggregates: Seq<(String, Aggregate)>) -> Seq<
    (Seq<char>, AggregateView),
> {
    Seq::new(aggregates.len(), |i: int| (aggregates[i].0@, aggregates[i].1@))
}

/// The value of a list of fields.
pub open spec fn fields_view(fields: Vec<(String, Field)>) -> Seq<(Seq<char>, FieldView)>
    decreases fields, 0nat,
{
    Seq::new(
        fields.len() as nat,
        |i: int|
            if 0 <= i < fields.len() {
                (fields[i].0@, fields[i].1.model())
            } else {
                (Seq::empty(), FieldView::Column { column: Seq::empty(), fields: None })
            },
    )
}

impl Query {
    /// The value of this query as a tree over sequences.
    pub open spec fn model(self) -> QueryView
        decreases self, 0nat,
    {
        QueryView {
            aggregates: match self.aggregates {
                Some(aggregates) => Some(aggregates_view(aggregates@)),
                None => None,
            },
            fields: match self.fields {
                Some(fields) => Some(fields_view(fields)),
                None => None,
            },
        }
    }
}

impl Field {
    /// The value of this field as a tree over sequences.
    pub open spec fn model(self) -> FieldView
        decreases self, 0nat,
    {
        match self {
            Field::Column { column, fields } => FieldView::Column {
                column: column@,
                fields: match fields {
                    Some(nested) => Some(nested.model()),
                    None => None,
                },
            },
            Field::Relationship { query, relationship } => FieldView::Relationship {
                query: Box::new(query.model()),
                relationship: relationship@,
            },
        }
    }
}

impl NestedField {
    /// The value of this selection as a tree over sequences.
    pub open spec fn model(self) -> NestedFieldView
        decreases self, 0nat,
    {
        match self {
            NestedField::Object(fields) => NestedFieldView::Object(fields_view(fields)),
            NestedField::Array(inner) => NestedFieldView::Array(Box::new(inner.model())),
        }
    }
}

impl View for Query {
    type V = QueryView;

    open spec fn view(&self) -> QueryView {
        self.model()
    }
}

impl View for Field {
    type V = FieldView;

    open spec fn view(&self) -> FieldView {
        self.model()
    }
}

impl View for NestedField {
    type V = NestedFieldView;

    open spec fn view(&self) -> NestedFieldView {
        self.model()
    }
}

/// The value of a list of named relationships: each name with the collection
/// that the relationship leads to.
pub open spec fn relationships_view(relationships: Seq<(String, Relationship)>) -> Seq<
    (Seq<char>, Seq<char>),
> {
    Seq::new(
        relationships.len(),
        |i: int| (relationships[i].0@, relationships[i].1.target_collection@),
    )
}

} // verus!
