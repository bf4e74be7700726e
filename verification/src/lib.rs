//! Compile-time SQL binding and decoding plans.
//!
//! Given the statement classification that a schema-aware type oracle
//! produces for a query (its kind, argument slot types and result column
//! types), this crate builds a validated argument-encoding plan and a
//! row-decoding plan, rewrites list-expansion sentinels in the query text
//! into the right number of placeholders, and turns the oracle's issues
//! into rendered, source-located diagnostics.

pub mod diag;
pub mod dialect;
pub mod matrix;
pub mod plan;
pub mod rewrite;
pub mod row;
pub mod types;

pub use matrix::{arg_out, check_arg, check_arg_list_hack};
pub use rewrite::convert_list_query;
pub use types::{Any, Date, DateTime, Float, Integer, Time, Timestamp};
