//! A generic SQL execution proxy over a local SQLite database.
//!
//! The proxy accepts an arbitrary parameterized SQL statement together with
//! an ordered list of dynamically typed parameters, executes it against a
//! resolved database location, and materializes the full result set as rows
//! of column names and dynamically typed values, converting every cell by
//! the declared storage class of its column.

pub mod engine;
pub mod executor;
pub mod marshal;
pub mod values;
