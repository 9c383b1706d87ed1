//! Construction and compilation of content queries for structured objects
//! held in an object store.
//!
//! The crate models a restricted, SQL-like content-query language as a typed
//! abstract syntax tree ([`query::QueryContent`] and its parts) and renders a
//! query value into the exact text that a content-filtering endpoint accepts.
//! Every rendering function carries a contract that pins the produced text
//! down to the character.

pub mod format;
pub mod query;
pub mod request;
pub mod text;
