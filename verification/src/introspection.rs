//! What is known of the tables of a database once it has been looked at.

use crate::column_table::ColumnTable;
use vstd::prelude::*;

verus! {

/// A column of a table as the database describes it.
#[derive(Debug, PartialEq, Eq)]
pub struct ColumnInfo {
    pub column_name: String,
    /// The text of the column's data type.
    pub data_type: String,
    pub is_nullable: bool,
    pub is_in_primary_key: bool,
}

/// A table or view of the database as the database describes it.
#[derive(Debug, PartialEq, Eq)]
pub struct TableInfo {
    pub table_name: String,
    pub table_schema: String,
    pub table_comment: Option<String>,
    /// The name of the primary key, where the table has one.
    pub primary_key: Option<String>,
    /// The statement that defines a view; empty for a table.
    pub view_definition: String,
    pub columns: Vec<ColumnInfo>,
}

/// The table from names to data types that the first `n` of a list of columns
/// give. Where a name occurs again, the later column counts.
pub open spec fn column_types(columns: Seq<ColumnInfo>, n: nat) -> Map<Seq<char>, Seq<char>>
    decreases n,
{
    if n == 0 || n > columns.len() {
        Map::empty()
    } else {
        column_types(columns, (n - 1) as nat).insert(
            columns[n - 1].column_name@,
            columns[n - 1].data_type@,
        )
    }
}

/// The columns of the rows of a table: each column's name with the text of its
/// data type.
pub fn get_return_type_columns(table: &TableInfo) -> (columns: ColumnTable)
    ensures
        columns@ == column_types(table.columns@, table.columns@.len()),
{
    let mut columns = ColumnTable::new();
    let mut i: usize = 0;
    while i < table.columns.len()
        invariant
            i <= table.columns.len(),
            columns@ == column_types(table.columns@, i as nat),
        decreases table.columns.len() - i,
    {
        columns.insert(table.columns[i].column_name.clone(), table.columns[i].data_type.clone());
        i += 1;
    }
    columns
}

} // verus!
