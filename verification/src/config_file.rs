//! The configuration as it is kept in a file.

use crate::column_table::ColumnTable;
use vstd::prelude::*;

verus! {

/// The primary key of a table: its name and the columns that make it up.
#[derive(Debug, PartialEq, Eq)]
pub struct PrimaryKey {
    pub name: String,
    pub columns: Vec<String>,
}

/// The type of the rows of a collection: its own list of columns, or that of
/// another table or query.
#[derive(Debug)]
pub enum ReturnType {
    Definition { columns: ColumnTable },
    TableReference { table_name: String },
    QueryReference { query_name: String },
}

/// The mathematical value of a [`ReturnType`].
pub enum ReturnTypeView {
    Definition { columns: Map<Seq<char>, Seq<char>> },
    TableReference { table_name: Seq<char> },
    QueryReference { query_name: Seq<char> },
}

impl View for ReturnType {
    type V = ReturnTypeView;

    open spec fn view(&self) -> ReturnTypeView {
        match self {
            ReturnType::Definition { columns } => ReturnTypeView::Definition { columns: columns@ },
            ReturnType::TableReference { table_name } => ReturnTypeView::TableReference {
                table_name: table_name@,
            },
            ReturnType::QueryReference { query_name } => ReturnTypeView::QueryReference {
                query_name: query_name@,
            },
        }
    }
}

/// A table of the database as the file describes it.
#[derive(Debug)]
pub struct TableConfigFile {
    /// The table's name in the database.
    pub name: String,
    /// The schema of the database that the table is in.
    pub schema: String,
    pub comment: Option<String>,
    pub primary_key: Option<PrimaryKey>,
    /// The parameters of a view, each name with the text of its type.
    pub arguments: ColumnTable,
    pub return_type: ReturnType,
}

/// How a query with parameters is offered.
#[derive(Debug, Clone, Copy, PartialEq, Eq)]
pub enum ParameterizedQueryExposedAs {
    Collection,
    Function,
}

/// A query with parameters as the file describes it.
#[derive(Debug)]
pub struct ParameterizedQueryConfigFile {
    pub exposed_as: ParameterizedQueryExposedAs,
    pub comment: Option<String>,
    /// The file that holds the statement, relative to the configuration.
    pub file: String,
    pub return_type: ReturnType,
}

/// The whole file. Tables and queries stand under their aliases, in the order
/// of the aliases; of two entries of one alias the first counts.
#[derive(Debug)]
pub struct ServerConfigFile {
    pub schema: String,
    pub tables: Vec<(String, TableConfigFile)>,
    pub queries: Vec<(String, ParameterizedQueryConfigFile)>,
}

} // verus!
