//! Bringing a configuration up to date with what the database holds, keeping
//! what its author chose.

use crate::column_table::ColumnTable;
use crate::config_file::{
    PrimaryKey, ReturnType, ReturnTypeView, ServerConfigFile, TableConfigFile,
};
use crate::introspection::{column_types, get_return_type_columns, ColumnInfo, TableInfo};
use crate::lookup::{find_key, position, stored_names};
use crate::text::{join3, text_eq};
use vstd::prelude::*;
use vstd::string::*;

verus! {

/// Whether an entry of a configuration describes a table of the database:
/// whether it names the table and its schema. The alias does not count.
pub open spec fn describes(entry: (String, TableConfigFile), table: &TableInfo) -> bool {
    entry.1.name@ == table.table_name@ && entry.1.schema@ == table.table_schema@
}

/// Whether the entry at `i` is the first that describes the table.
pub open spec fn first_described(
    tables: Seq<(String, TableConfigFile)>,
    table: &TableInfo,
    i: int,
) -> bool {
    &&& 0 <= i < tables.len()
    &&& describes(tables[i], table)
    &&& forall|j: int| 0 <= j < i ==> !describes(#[trigger] tables[j], table)
}

/// The entry of an earlier configuration that describes a table, with its
/// alias: the first such entry.
pub open spec fn old_table_of(table: &TableInfo, old_config: Option<ServerConfigFile>) -> Option<
    (&String, &TableConfigFile),
> {
    match old_config {
        Some(old) => if exists|i: int| first_described(old.tables@, table, i) {
            let i = choose|i: int| first_described(old.tables@, table, i);
            Some((&old.tables[i].0, &old.tables[i].1))
        } else {
            None
        },
        None => None,
    }
}

/// There is one first entry that describes a table at most.
pub proof fn lemma_first_described_is_one(tables: Seq<(String, TableConfigFile)>, table: &TableInfo)
    ensures
        forall|i: int, j: int|
            first_described(tables, table, i) && first_described(tables, table, j) ==> i == j,
{
    assert forall|i: int, j: int|
        first_described(tables, table, i) && first_described(tables, table, j) implies i == j by {
        if i < j {
            assert(!describes(tables[i], table));
        } else if j < i {
            assert(!describes(tables[j], table));
        }
    }
}

/// The entry of an earlier configuration that describes a table, with its
/// alias: the first such entry, if there is an earlier configuration and it
/// holds one.
pub fn get_old_table_config<'a>(table: &TableInfo, old_config: &'a Option<ServerConfigFile>) -> (found:
    Option<(&'a String, &'a TableConfigFile)>)
    ensures
        match found {
            Some((alias, config)) => old_config matches Some(old) && exists|i: int|
                #[trigger] first_described(old.tables@, table, i) && *alias == old.tables[i].0
                    && *config == old.tables[i].1,
            None => old_config matches Some(old) ==> forall|i: int|
                0 <= i < old.tables.len() ==> !describes(#[trigger] old.tables[i], table),
        },
{
    match old_config {
        None => None,
        Some(old) => {
            let mut i: usize = 0;
            while i < old.tables.len()
                invariant
                    *old_config == Some(*old),
                    i <= old.tables.len(),
                    forall|j: int| 0 <= j < i ==> !describes(#[trigger] old.tables[j], table),
                decreases old.tables.len() - i,
            {
                if text_eq(old.tables[i].1.name.as_str(), table.table_name.as_str()) && text_eq(
                    old.tables[i].1.schema.as_str(),
                    table.table_schema.as_str(),
                ) {
                    assert(first_described(old.tables@, table, i as int));
                    let found = Some((&old.tables[i].0, &old.tables[i].1));
                    assert(found matches Some((alias, config)) && old_config matches Some(o)
                        && exists|k: int|
                        #[trigger] first_described(o.tables@, table, k) && *alias == o.tables[k].0
                            && *config == o.tables[k].1) by {
                        assert(first_described(old.tables@, table, i as int));
                    }
                    return found;
                }
                i += 1;
            }
            None
        },
    }
}

/// The alias of a table that no earlier configuration names: the table's name
/// in the schema `default`, else the schema, an underscore and the name.
pub open spec fn default_alias(schema: Seq<char>, name: Seq<char>) -> Seq<char> {
    if schema == "default"@ {
        name
    } else {
        schema + "_"@ + name
    }
}

/// The alias of a table: the one it had in the earlier configuration, else
/// its default alias.
pub fn get_table_alias(table: &TableInfo, old_table: &Option<(&String, &TableConfigFile)>) -> (alias:
    String)
    ensures
        alias@ == match old_table {
            Some((old_alias, _)) => old_alias@,
            None => default_alias(table.table_schema@, table.table_name@),
        },
{
    match old_table {
        Some((old_alias, _)) => (*old_alias).clone(),
        None => {
            if text_eq(table.table_schema.as_str(), "default") {
                table.table_name.clone()
            } else {
                join3(table.table_schema.as_str(), "_", table.table_name.as_str())
            }
        },
    }
}

/// The columns of a table of the database as a table from names to data
/// types.
pub open spec fn info_columns(table: TableInfo) -> Map<Seq<char>, Seq<char>> {
    column_types(table.columns@, table.columns@.len())
}

/// Whether the table at `i` is the first of the given schema and name.
pub open spec fn first_info(
    introspection: Seq<TableInfo>,
    schema: Seq<char>,
    name: Seq<char>,
    i: int,
) -> bool {
    &&& 0 <= i < introspection.len()
    &&& introspection[i].table_schema@ == schema
    &&& introspection[i].table_name@ == name
    &&& forall|j: int|
        0 <= j < i ==> !((#[trigger] introspection[j]).table_schema@ == schema
            && introspection[j].table_name@ == name)
}

/// Whether a reference to a table may be kept by `referencing`, whose rows
/// have the columns `columns`: the earlier configuration holds the table, with
/// columns of its own, and the first table of the database that is in the
/// schema of the referenced table and has the name of the referencing one has
/// just those columns.
pub open spec fn table_reference_holds(
    old: ServerConfigFile,
    referencing: TableConfigFile,
    table_name: Seq<char>,
    introspection: Seq<TableInfo>,
    columns: Map<Seq<char>, Seq<char>>,
) -> bool {
    match position(stored_names(old.tables@), table_name) {
        Some(k) => old.tables[k].1.return_type is Definition && exists|i: int|
            #[trigger] first_info(introspection, old.tables[k].1.schema@, referencing.name@, i)
                && info_columns(introspection[i]) == columns,
        None => false,
    }
}

/// Whether a reference to a query may be kept where the rows have the columns
/// `columns`: the earlier configuration holds the query, with just those
/// columns of its own.
pub open spec fn query_reference_holds(
    old: ServerConfigFile,
    query_name: Seq<char>,
    columns: Map<Seq<char>, Seq<char>>,
) -> bool {
    match position(stored_names(old.queries@), query_name) {
        Some(k) => old.queries[k].1.return_type matches ReturnType::Definition { columns: own }
            && own@ == columns,
        None => false,
    }
}

/// The type of the rows of a table in the new configuration: the reference
/// that the earlier configuration made for it, where that reference still
/// holds, else the table's own columns.
pub open spec fn table_return_type(
    table: &TableInfo,
    old_table: Option<(&String, &TableConfigFile)>,
    old_config: Option<ServerConfigFile>,
    introspection: Seq<TableInfo>,
) -> ReturnTypeView {
    let columns = info_columns(*table);
    let own = ReturnTypeView::Definition { columns };
    match (old_table, old_config) {
        (Some((_, referencing)), Some(old)) => match referencing.return_type {
            ReturnType::Definition { .. } => own,
            ReturnType::TableReference { table_name } => if table_reference_holds(
                old,
                *referencing,
                table_name@,
                introspection,
                columns,
            ) {
                ReturnTypeView::TableReference { table_name: table_name@ }
            } else {
                own
            },
            ReturnType::QueryReference { query_name } => if query_reference_holds(
                old,
                query_name@,
                columns,
            ) {
                ReturnTypeView::QueryReference { query_name: query_name@ }
            } else {
                own
            },
        },
        _ => own,
    }
}

/// The first table of the database of a schema and a name.
fn find_info<'a>(introspection: &'a Vec<TableInfo>, schema: &str, name: &str) -> (found: Option<
    &'a TableInfo,
>)
    ensures
        match found {
            Some(info) => exists|i: int|
                #[trigger] first_info(introspection@, schema@, name@, i) && *info
                    == introspection[i],
            None => forall|i: int| !first_info(introspection@, schema@, name@, i),
        },
{
    let mut i: usize = 0;
    while i < introspection.len()
        invariant
            i <= introspection.len(),
            forall|j: int|
                0 <= j < i ==> !((#[trigger] introspection[j]).table_schema@ == schema@
                    && introspection[j].table_name@ == name@),
        decreases introspection.len() - i,
    {
        if text_eq(introspection[i].table_schema.as_str(), schema) && text_eq(
            introspection[i].table_name.as_str(),
            name,
        ) {
            assert(first_info(introspection@, schema@, name@, i as int));
            return Some(&introspection[i]);
        }
        i += 1;
    }
    None
}

/// The type of the rows of a table in the new configuration.
pub fn get_table_return_type(
    table: &TableInfo,
    old_table: &Option<(&String, &TableConfigFile)>,
    old_config: &Option<ServerConfigFile>,
    introspection: &Vec<TableInfo>,
) -> (return_type: ReturnType)
    ensures
        return_type@ == table_return_type(table, *old_table, *old_config, introspection@),
{
    let new_columns = get_return_type_columns(table);
    let (referencing, old) = match (old_table, old_config) {
        (Some((_, referencing)), Some(old)) => (referencing, old),
        _ => {
            return ReturnType::Definition { columns: new_columns };
        },
    };
    match &referencing.return_type {
        ReturnType::Definition { .. } => ReturnType::Definition { columns: new_columns },
        ReturnType::TableReference { table_name } => {
            let kept = match find_key(&old.tables, table_name.as_str()) {
                None => false,
                Some(k) => match &old.tables[k].1.return_type {
                    ReturnType::Definition { .. } => match find_info(
                        introspection,
                        old.tables[k].1.schema.as_str(),
                        referencing.name.as_str(),
                    ) {
                        Some(info) => {
                            proof {
                                lemma_first_info_is_one(
                                    introspection@,
                                    old.tables[k as int].1.schema@,
                                    referencing.name@,
                                );
                            }
                            get_return_type_columns(info).same_as(&new_columns)
                        },
                        None => false,
                    },
                    _ => false,
                },
            };
            if kept {
                ReturnType::TableReference { table_name: table_name.clone() }
            } else {
                ReturnType::Definition { columns: new_columns }
            }
        },
        ReturnType::QueryReference { query_name } => {
            let kept = match find_key(&old.queries, query_name.as_str()) {
                None => false,
                Some(k) => match &old.queries[k].1.return_type {
                    ReturnType::Definition { columns } => columns.same_as(&new_columns),
                    _ => false,
                },
            };
            if kept {
                ReturnType::QueryReference { query_name: query_name.clone() }
            } else {
                ReturnType::Definition { columns: new_columns }
            }
        },
    }
}

/// There is one first table of a schema and a name at most.
pub proof fn lemma_first_info_is_one(
    introspection: Seq<TableInfo>,
    schema: Seq<char>,
    name: Seq<char>,
)
    ensures
        forall|i: int, j: int|
            first_info(introspection, schema, name, i) && first_info(introspection, schema, name, j)
                ==> i == j,
{
    assert forall|i: int, j: int|
        first_info(introspection, schema, name, i) && first_info(
            introspection,
            schema,
            name,
            j,
        ) implies i == j by {
        if i < j {
            assert(!(introspection[i].table_schema@ == schema && introspection[i].table_name@
                == name));
        } else if j < i {
            assert(!(introspection[j].table_schema@ == schema && introspection[j].table_name@
                == name));
        }
    }
}

/// The texts of a list of strings.
pub open spec fn texts(strings: Seq<String>) -> Seq<Seq<char>> {
    Seq::new(strings.len(), |i: int| strings[i]@)
}

/// The names of those of the first `n` columns that are in the primary key,
/// in the order of the columns.
pub open spec fn key_columns(columns: Seq<ColumnInfo>, n: nat) -> Seq<Seq<char>>
    decreases n,
{
    if n == 0 || n > columns.len() {
        Seq::empty()
    } else if columns[n - 1].is_in_primary_key {
        key_columns(columns, (n - 1) as nat).push(columns[n - 1].column_name@)
    } else {
        key_columns(columns, (n - 1) as nat)
    }
}

/// The primary key of a table, if it has one: the key's name and the columns
/// of the table that are in it.
pub fn primary_key_of(table: &TableInfo) -> (key: Option<PrimaryKey>)
    ensures
        match key {
            Some(key) => table.primary_key matches Some(name) && key.name@ == name@ && texts(
                key.columns@,
            ) == key_columns(table.columns@, table.columns@.len()),
            None => table.primary_key is None,
        },
{
    let name = match &table.primary_key {
        Some(name) => name.clone(),
        None => {
            return None;
        },
    };
    let mut columns: Vec<String> = Vec::new();
    let mut i: usize = 0;
    while i < table.columns.len()
        invariant
            i <= table.columns.len(),
            texts(columns@) == key_columns(table.columns@, i as nat),
        decreases table.columns.len() - i,
    {
        let ghost before = columns@;
        if table.columns[i].is_in_primary_key {
            columns.push(table.columns[i].column_name.clone());
            assert(texts(columns@) =~= texts(before).push(table.columns[i as int].column_name@));
        }
        i += 1;
    }
    Some(PrimaryKey { name, columns })
}

/// The text that may be missing.
pub open spec fn optional_text(text: Option<String>) -> Option<Seq<char>> {
    match text {
        Some(text) => Some(text@),
        None => None,
    }
}

/// The entry of a table of the database in the new configuration, under its
/// alias. The parameters of a view are given; everything else is taken from
/// the database, but for the alias and a reference that still holds, which
/// are kept from the earlier configuration.
pub fn table_config(
    table: &TableInfo,
    old_config: &Option<ServerConfigFile>,
    introspection: &Vec<TableInfo>,
    arguments: ColumnTable,
) -> (entry: (String, TableConfigFile))
    ensures
        ({
            let old_table = old_table_of(table, *old_config);
            &&& entry.0@ == match old_table {
                Some((old_alias, _)) => old_alias@,
                None => default_alias(table.table_schema@, table.table_name@),
            }
            &&& entry.1.name@ == table.table_name@
            &&& entry.1.schema@ == table.table_schema@
            &&& optional_text(entry.1.comment) == optional_text(table.table_comment)
            &&& match entry.1.primary_key {
                Some(key) => table.primary_key matches Some(name) && key.name@ == name@ && texts(
                    key.columns@,
                ) == key_columns(table.columns@, table.columns@.len()),
                None => table.primary_key is None,
            }
            &&& entry.1.arguments@ == arguments@
            &&& entry.1.return_type@ == table_return_type(
                table,
                old_table,
                *old_config,
                introspection@,
            )
        }),
{
    let old_table = get_old_table_config(table, old_config);
    proof {
        if let Some(old) = old_config {
            lemma_first_described_is_one(old.tables@, table);
        }
    }
    let alias = get_table_alias(table, &old_table);
    let comment = match &table.table_comment {
        Some(comment) => Some(comment.clone()),
        None => None,
    };
    let return_type = get_table_return_type(table, &old_table, old_config, introspection);
    (
        alias,
        TableConfigFile {
            name: table.table_name.clone(),
            schema: table.table_schema.clone(),
            comment,
            primary_key: primary_key_of(table),
            arguments,
            return_type,
        },
    )
}

} // verus!
