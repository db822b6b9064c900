//! The ways in which an operation of the store fails.

use vstd::prelude::*;
use crate::value::ColumnType;

verus! {

/// Why a row that a query returned cannot be read as a record.
#[derive(Debug, Clone, Copy, PartialEq, Eq, Structural)]
pub enum RowError {
    /// The row has no column at this index.
    InvalidColumnIndex(usize),
    /// The column at this index holds a value of this storage class, which the
    /// field read from it cannot take.
    InvalidColumnType(usize, ColumnType),
    /// The column at this index holds this integer, which the field read from
    /// it is too narrow for.
    IntegralValueOutOfRange(usize, i64),
}

/// An error of the store.
#[derive(Debug)]
pub enum StoreError {
    /// The database engine failed; its error is handed on as it came.
    Storage(rusqlite::Error),
    /// The steps of a plan could not be written as JSON.
    Encode(serde_json::Error),
    /// The stored steps of a plan are not a JSON array of strings.
    Decode(serde_json::Error),
    /// A row that the engine returned cannot be read as a record.
    Row(RowError),
    /// The platform names no per-user data directory.
    NoDataDirectory,
}

} // verus!
