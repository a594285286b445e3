//! The schema that requests are translated against.

use crate::datatype::{DataType, DataTypeView};
use crate::lookup::{find_key, lookup, names, stored_names};
use indexmap::IndexMap;
use vstd::prelude::*;

verus! {

/// `indexmap::IndexMap`, a hash table that keeps its entries in the order in
/// which they were inserted.
#[verifier::external_type_specification]
#[verifier::external_body]
#[verifier::reject_recursive_types(K)]
#[verifier::reject_recursive_types(V)]
#[verifier::reject_recursive_types(S)]
pub struct ExIndexMap<K, V, S>(IndexMap<K, V, S>);

/// The columns that a table of columns holds: each column's name with the value
/// of its data type.
pub uninterp spec fn columns_of(columns: IndexMap<String, DataType>) -> Map<
    Seq<char>,
    DataTypeView,
>;

/// `IndexMap::get`: the value stored under a key, if the key is in the table.
/// Claimed of it: it returns the data type that the table holds under `name`,
/// and nothing exactly when the table holds no column of that name.
#[verifier::external_body]
fn column_type<'a>(columns: &'a IndexMap<String, DataType>, name: &str) -> (found: Option<
    &'a DataType,
>)
    ensures
        match found {
            Some(data_type) => columns_of(*columns).dom().contains(name@) && data_type@
                == columns_of(*columns)[name@],
            None => !columns_of(*columns).dom().contains(name@),
        },
{
    columns.get(name)
}

/// The columns of the rows that a collection returns.
#[derive(Debug)]
pub struct TableType {
    pub columns: IndexMap<String, DataType>,
}

/// A table of the database, and the name of the type of its rows.
#[derive(Debug, PartialEq, Eq)]
pub struct TableConfig {
    pub return_type: String,
}

/// A query with parameters that is offered as a collection, and the name of
/// the type of its rows.
#[derive(Debug, PartialEq, Eq)]
pub struct QueryConfig {
    pub return_type: String,
}

/// The schema: the collections, which are tables and queries, the types of
/// their rows, and the separator by which the names of nested types are built.
/// In each list the first entry of a name is the one that counts.
#[derive(Debug)]
pub struct ServerConfig {
    pub namespace_separator: String,
    pub table_types: Vec<(String, TableType)>,
    pub tables: Vec<(String, TableConfig)>,
    pub queries: Vec<(String, QueryConfig)>,
}

/// The mathematical value of a [`ServerConfig`].
pub struct ServerConfigView {
    pub namespace_separator: Seq<char>,
    /// Each row type's name with its columns.
    pub table_types: Seq<(Seq<char>, Map<Seq<char>, DataTypeView>)>,
    /// Each table's name with the name of its row type.
    pub tables: Seq<(Seq<char>, Seq<char>)>,
    /// Each query's name with the name of its row type.
    pub queries: Seq<(Seq<char>, Seq<char>)>,
}

impl View for ServerConfig {
    type V = ServerConfigView;

    open spec fn view(&self) -> ServerConfigView {
        ServerConfigView {
            namespace_separator: self.namespace_separator@,
            table_types: Seq::new(
                self.table_types.len() as nat,
                |i: int| (self.table_types[i].0@, columns_of(self.table_types[i].1.columns)),
            ),
            tables: Seq::new(
                self.tables.len() as nat,
                |i: int| (self.tables[i].0@, self.tables[i].1.return_type@),
            ),
            queries: Seq::new(
                self.queries.len() as nat,
                |i: int| (self.queries[i].0@, self.queries[i].1.return_type@),
            ),
        }
    }
}

impl ServerConfigView {
    /// The name of the type of the rows of a collection: that of the table of
    /// this name, else that of the query of this name.
    pub open spec fn return_type(self, collection: Seq<char>) -> Option<Seq<char>> {
        match lookup(self.tables, collection) {
            Some(return_type) => Some(return_type),
            None => lookup(self.queries, collection),
        }
    }

    /// The columns of a row type.
    pub open spec fn columns(self, return_type: Seq<char>) -> Option<Map<Seq<char>, DataTypeView>> {
        lookup(self.table_types, return_type)
    }
}

impl ServerConfig {
    /// The name of the type of the rows of a collection, if the schema knows
    /// the collection.
    pub fn return_type(&self, collection: &str) -> (found: Option<&String>)
        ensures
            match found {
                Some(return_type) => self@.return_type(collection@) == Some(return_type@),
                None => self@.return_type(collection@) is None,
            },
    {
        assert(stored_names(self.tables@) =~= names(self@.tables));
        assert(stored_names(self.queries@) =~= names(self@.queries));
        match find_key(&self.tables, collection) {
            Some(i) => Some(&self.tables[i].1.return_type),
            None => match find_key(&self.queries, collection) {
                Some(i) => Some(&self.queries[i].1.return_type),
                None => None,
            },
        }
    }

    /// The columns of a row type, if the schema knows the type.
    pub fn table_type(&self, return_type: &str) -> (found: Option<&TableType>)
        ensures
            match found {
                Some(table_type) => self@.columns(return_type@) == Some(
                    columns_of(table_type.columns),
                ),
                None => self@.columns(return_type@) is None,
            },
    {
        assert(stored_names(self.table_types@) =~= names(self@.table_types));
        match find_key(&self.table_types, return_type) {
            Some(i) => Some(&self.table_types[i].1),
            None => None,
        }
    }
}

impl TableType {
    /// The data type of a column, if the type has a column of that name.
    pub fn column(&self, name: &str) -> (found: Option<&DataType>)
        ensures
            match found {
                Some(data_type) => columns_of(self.columns).dom().contains(name@) && data_type@
                    == columns_of(self.columns)[name@],
                None => !columns_of(self.columns).dom().contains(name@),
            },
    {
        column_type(&self.columns, name)
    }
}

} // verus!
