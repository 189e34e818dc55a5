//! Core logic of a database benchmarking service: for each endpoint it
//! synthesizes the SQL statement that invokes a fixed stored procedure with
//! the request parameters embedded as literals, and maps the returned rows
//! into typed result records, re-parsing JSON-typed columns with a
//! null-equivalent fallback.
//!
//! All I/O (HTTP handling, the connection pool, the database round-trip)
//! lives outside this crate; these functions go from plain request values to
//! SQL text, and from plain row values to result records.

pub mod json;
pub mod rows;
pub mod sql;
pub mod text;
