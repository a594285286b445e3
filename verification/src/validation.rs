//! Checking the references that the entries of a configuration make to each
//! other.

use crate::config_file::{
    ParameterizedQueryConfigFile, ReturnType, ServerConfigFile, TableConfigFile,
};
use crate::lookup::{find_key, position, stored_names};
use vstd::prelude::*;
use vstd::string::*;

verus! {

/// The two kinds of entries of a configuration.
#[derive(Debug, Clone, Copy, PartialEq, Eq)]
pub enum CollectionKind {
    Table,
    Query,
}

/// What is wrong with an entry of a configuration.
#[derive(Debug, PartialEq, Eq)]
pub enum ReferenceError {
    /// The entry takes its row type from one that has no columns of its own.
    Invalid { source_kind: CollectionKind, source: String, target_kind: CollectionKind, target: String },
    /// The entry takes its row type from one that the configuration lacks.
    Orphan { source_kind: CollectionKind, source: String, target_kind: CollectionKind, target: String },
    /// A query has the alias of a table.
    NameCollision { query: String },
}

/// The mathematical value of a [`ReferenceError`].
pub enum ReferenceErrorView {
    Invalid {
        source_kind: CollectionKind,
        source: Seq<char>,
        target_kind: CollectionKind,
        target: Seq<char>,
    },
    Orphan {
        source_kind: CollectionKind,
        source: Seq<char>,
        target_kind: CollectionKind,
        target: Seq<char>,
    },
    NameCollision { query: Seq<char> },
}

impl View for ReferenceError {
    type V = ReferenceErrorView;

    open spec fn view(&self) -> ReferenceErrorView {
        match self {
            ReferenceError::Invalid { source_kind, source, target_kind, target } =>
                ReferenceErrorView::Invalid {
                source_kind: *source_kind,
                source: source@,
                target_kind: *target_kind,
                target: target@,
            },
            ReferenceError::Orphan { source_kind, source, target_kind, target } =>
                ReferenceErrorView::Orphan {
                source_kind: *source_kind,
                source: source@,
                target_kind: *target_kind,
                target: target@,
            },
            ReferenceError::NameCollision { query } => ReferenceErrorView::NameCollision {
                query: query@,
            },
        }
    }
}

/// Whether the table of an alias has columns of its own; nothing where the
/// configuration has no table of that alias.
pub open spec fn table_defines(config: ServerConfigFile, alias: Seq<char>) -> Option<bool> {
    match position(stored_names(config.tables@), alias) {
        Some(k) => Some(config.tables[k].1.return_type is Definition),
        None => None,
    }
}

/// Whether the query of an alias has columns of its own; nothing where the
/// configuration has no query of that alias.
pub open spec fn query_defines(config: ServerConfigFile, alias: Seq<char>) -> Option<bool> {
    match position(stored_names(config.queries@), alias) {
        Some(k) => Some(config.queries[k].1.return_type is Definition),
        None => None,
    }
}

/// What is wrong with a reference from `source` to `target`, given whether
/// the target has columns of its own.
pub open spec fn judged(
    source_kind: CollectionKind,
    source: Seq<char>,
    target_kind: CollectionKind,
    target: Seq<char>,
    defines: Option<bool>,
) -> Option<ReferenceErrorView> {
    match defines {
        Some(true) => None,
        Some(false) => Some(
            ReferenceErrorView::Invalid { source_kind, source, target_kind, target },
        ),
        None => Some(ReferenceErrorView::Orphan { source_kind, source, target_kind, target }),
    }
}

/// What is wrong with the row type of an entry, if anything: it refers to a
/// table or a query that the configuration lacks, or to one that has no
/// columns of its own.
pub open spec fn reference_error(
    config: ServerConfigFile,
    source_kind: CollectionKind,
    source: Seq<char>,
    return_type: ReturnType,
) -> Option<ReferenceErrorView> {
    match return_type {
        ReturnType::Definition { .. } => None,
        ReturnType::TableReference { table_name } => judged(
            source_kind,
            source,
            CollectionKind::Table,
            table_name@,
            table_defines(config, table_name@),
        ),
        ReturnType::QueryReference { query_name } => judged(
            source_kind,
            source,
            CollectionKind::Query,
            query_name@,
            query_defines(config, query_name@),
        ),
    }
}

/// What is wrong with a query, if anything: that it has the alias of a table,
/// else what is wrong with its row type.
pub open spec fn query_error(
    config: ServerConfigFile,
    alias: Seq<char>,
    query: ParameterizedQueryConfigFile,
) -> Option<ReferenceErrorView> {
    if position(stored_names(config.tables@), alias) is Some {
        Some(ReferenceErrorView::NameCollision { query: alias })
    } else {
        reference_error(config, CollectionKind::Query, alias, query.return_type)
    }
}

/// The value of a failure that may be missing.
pub open spec fn failure_view(result: Result<(), ReferenceError>) -> Option<ReferenceErrorView> {
    match result {
        Ok(_) => None,
        Err(error) => Some(error@),
    }
}

/// Checks the row type of an entry.
fn check_reference(
    config: &ServerConfigFile,
    source_kind: CollectionKind,
    source: &str,
    return_type: &ReturnType,
) -> (result: Result<(), ReferenceError>)
    ensures
        failure_view(result) == reference_error(*config, source_kind, source@, *return_type),
{
    match return_type {
        ReturnType::Definition { .. } => Ok(()),
        ReturnType::TableReference { table_name } => {
            match find_key(&config.tables, table_name.as_str()) {
                Some(k) => match &config.tables[k].1.return_type {
                    ReturnType::Definition { .. } => Ok(()),
                    _ => Err(
                        ReferenceError::Invalid {
                            source_kind,
                            source: String::from_str(source),
                            target_kind: CollectionKind::Table,
                            target: table_name.clone(),
                        },
                    ),
                },
                None => Err(
                    ReferenceError::Orphan {
                        source_kind,
                        source: String::from_str(source),
                        target_kind: CollectionKind::Table,
                        target: table_name.clone(),
                    },
                ),
            }
        },
        ReturnType::QueryReference { query_name } => {
            match find_key(&config.queries, query_name.as_str()) {
                Some(k) => match &config.queries[k].1.return_type {
                    ReturnType::Definition { .. } => Ok(()),
                    _ => Err(
                        ReferenceError::Invalid {
                            source_kind,
                            source: String::from_str(source),
                            target_kind: CollectionKind::Query,
                            target: query_name.clone(),
                        },
                    ),
                },
                None => Err(
                    ReferenceError::Orphan {
                        source_kind,
                        source: String::from_str(source),
                        target_kind: CollectionKind::Query,
                        target: query_name.clone(),
                    },
                ),
            }
        },
    }
}

/// Checks the row type of a table of the configuration.
pub fn check_table(config: &ServerConfigFile, table_alias: &str, table: &TableConfigFile) -> (result:
    Result<(), ReferenceError>)
    ensures
        failure_view(result) == reference_error(
            *config,
            CollectionKind::Table,
            table_alias@,
            table.return_type,
        ),
{
    check_reference(config, CollectionKind::Table, table_alias, &table.return_type)
}

/// Checks the alias and the row type of a query of the configuration.
pub fn check_query(
    config: &ServerConfigFile,
    query_alias: &str,
    query: &ParameterizedQueryConfigFile,
) -> (result: Result<(), ReferenceError>)
    ensures
        failure_view(result) == query_error(*config, query_alias@, *query),
{
    match find_key(&config.tables, query_alias) {
        Some(_) => Err(ReferenceError::NameCollision { query: String::from_str(query_alias) }),
        None => check_reference(config, CollectionKind::Query, query_alias, &query.return_type),
    }
}

/// The word for a kind of entry.
pub open spec fn kind_word(kind: CollectionKind) -> Seq<char> {
    match kind {
        CollectionKind::Table => "table"@,
        CollectionKind::Query => "query"@,
    }
}

/// A name between double quotes.
pub open spec fn quoted(name: Seq<char>) -> Seq<char> {
    "\""@ + name + "\""@
}

impl ReferenceErrorView {
    /// The failure in words. A query that takes its row type from a query
    /// without columns of its own names the target without the word `query`.
    pub open spec fn message(self) -> Seq<char> {
        match self {
            ReferenceErrorView::Invalid { source_kind, source, target_kind, target } => {
                let head = "Invalid reference: "@ + kind_word(source_kind) + " "@ + quoted(source)
                    + " references "@;
                let named = if source_kind == CollectionKind::Query && target_kind
                    == CollectionKind::Query {
                    quoted(target)
                } else {
                    kind_word(target_kind) + " "@ + quoted(target)
                };
                head + named + " which does not have a return type definition."@
            },
            ReferenceErrorView::Orphan { source_kind, source, target_kind, target } =>
                "Orphan reference: "@ + kind_word(source_kind) + " "@ + quoted(source)
                + " references "@ + (kind_word(target_kind) + " "@ + quoted(target))
                + " which cannot be found."@,
            ReferenceErrorView::NameCollision { query } => "Name collision: query "@ + quoted(query)
                + " has the same name as a collection"@,
        }
    }
}

fn kind_text(kind: CollectionKind) -> (word: String)
    ensures
        word@ == kind_word(kind),
{
    match kind {
        CollectionKind::Table => String::from_str("table"),
        CollectionKind::Query => String::from_str("query"),
    }
}

fn quoted_text(name: &str) -> (text: String)
    ensures
        text@ == quoted(name@),
{
    let mut text = String::from_str("\"");
    text.append(name);
    text.append("\"");
    text
}

fn kind_and_name(kind: CollectionKind, name: &str) -> (text: String)
    ensures
        text@ == kind_word(kind) + " "@ + quoted(name@),
{
    let mut text = kind_text(kind);
    text.append(" ");
    text.append(quoted_text(name).as_str());
    text
}

impl ReferenceError {
    /// The failure in words.
    pub fn message(&self) -> (text: String)
        ensures
            text@ == self@.message(),
    {
        match self {
            ReferenceError::Invalid { source_kind, source, target_kind, target } => {
                let mut text = String::from_str("Invalid reference: ");
                text.append(kind_text(*source_kind).as_str());
                text.append(" ");
                text.append(quoted_text(source.as_str()).as_str());
                text.append(" references ");
                let both_queries = match (source_kind, target_kind) {
                    (CollectionKind::Query, CollectionKind::Query) => true,
                    _ => false,
                };
                if both_queries {
                    text.append(quoted_text(target.as_str()).as_str());
                } else {
                    text.append(kind_and_name(*target_kind, target.as_str()).as_str());
                }
                text.append(" which does not have a return type definition.");
                text
            },
            ReferenceError::Orphan { source_kind, source, target_kind, target } => {
                let mut text = String::from_str("Orphan reference: ");
                text.append(kind_text(*source_kind).as_str());
                text.append(" ");
                text.append(quoted_text(source.as_str()).as_str());
                text.append(" references ");
                text.append(kind_and_name(*target_kind, target.as_str()).as_str());
                text.append(" which cannot be found.");
                text
            },
            ReferenceError::NameCollision { query } => {
                let mut text = String::from_str("Name collision: query ");
                text.append(quoted_text(query.as_str()).as_str());
                text.append(" has the same name as a collection");
                text
            },
        }
    }
}

} // verus!
