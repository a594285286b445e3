//! Result type-casting for a ClickHouse data connector.
//!
//! A query request names fields, nested selections, relationships and
//! aggregates under aliases of the caller's choice. ClickHouse returns plain
//! tuples. This library computes, from the request and the schema, the nested
//! type that the output of the generated statement is cast to, so that the
//! result has the names, the order and the nesting that the request asked for.
//!
//! [`typecasting::RowsetTypeString::new`] is the entry point. What it returns
//! is stated by [`translation::rowset_shape`], and [`laws`] holds what follows
//! for every request. The remaining modules hold the data type tree and its
//! text ([`datatype`]), the view that a selection has of a column
//! ([`type_definition`]), the aggregate functions ([`aggregate`]), the request
//! ([`request`]) and the schema ([`config`]).
//!
//! [`update`] and [`validation`] serve the program that keeps the
//! configuration file ([`config_file`]) in step with the database
//! ([`introspection`]).

pub mod aggregate;
pub mod column_table;
pub mod config;
pub mod config_file;
pub mod datatype;
pub mod introspection;
pub mod laws;
pub mod lookup;
pub mod request;
pub mod text;
pub mod translation;
pub mod type_definition;
pub mod typecasting;
pub mod update;
pub mod validation;
