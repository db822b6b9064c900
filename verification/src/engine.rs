//! The database engine: the types of `rusqlite` that the store carries, and
//! the calls into it. Nothing in this module is proved; each item says what
//! is taken on trust. The answers of the engine depend on what the database
//! holds, so no call into it promises anything of its outcome. The two
//! conversions between the values of this crate and those of the engine read
//! nothing but their argument, and their results are named.

use vstd::prelude::*;
use crate::value::{SqlParam, SqlParamView, SqlValue, SqlValueView};

verus! {

/// `rusqlite::Connection`, an open database. Opaque to the verifier.
#[verifier::external_type_specification]
#[verifier::external_body]
pub struct ExConnection(rusqlite::Connection);

/// `rusqlite::Error`, whatever the engine reports. Opaque to the verifier.
#[verifier::external_type_specification]
#[verifier::external_body]
pub struct ExEngineError(rusqlite::Error);

/// `rusqlite::types::Value`, a value in the engine's own representation.
/// Opaque to the verifier.
#[verifier::external_type_specification]
#[verifier::external_body]
pub struct ExEngineValue(rusqlite::types::Value);

/// Calls `rusqlite::Connection::open`, which opens the database file at
/// `path` and creates it if there is none. Nothing is claimed of the outcome:
/// it depends on the file system.
#[verifier::external_body]
pub(crate) fn open_connection(path: &std::path::PathBuf) -> (r: Result<
    rusqlite::Connection,
    rusqlite::Error,
>)
{
    rusqlite::Connection::open(path)
}

/// The `rusqlite::types::Value` that is bound for a parameter:
/// `Value::Integer` with the integer, `Value::Text` with the text.
pub uninterp spec fn engine_value(param: SqlParamView) -> rusqlite::types::Value;

/// What a `rusqlite::types::Value` holds: the value of this crate of the
/// same variant with the same payload; for `Real`, the bits of the number as
/// `f64::to_bits` gives them.
pub uninterp spec fn cell_of(value: rusqlite::types::Value) -> SqlValueView;

/// Builds the `rusqlite::types::Value` that is bound for `param`, with the
/// constructor of the same name. A value of the engine is opaque, so the
/// result is named: it is [`engine_value`] of what `param` holds.
#[verifier::external_body]
pub(crate) fn to_engine(param: &SqlParam) -> (value: rusqlite::types::Value)
    ensures
        value == engine_value(param@),
{
    match param {
        SqlParam::Integer(n) => rusqlite::types::Value::Integer(*n),
        SqlParam::Text(s) => rusqlite::types::Value::Text(s.clone()),
    }
}

/// Takes a `rusqlite::types::Value` apart, variant by variant, into the
/// [`SqlValue`] of the same name with the same payload. A value of the
/// engine is opaque, so the result is named: it holds [`cell_of`] of the
/// value.
#[verifier::external_body]
pub(crate) fn from_engine(value: &rusqlite::types::Value) -> (cell: SqlValue)
    ensures
        cell@ == cell_of(*value),
{
    match value {
        rusqlite::types::Value::Null => SqlValue::Null,
        rusqlite::types::Value::Integer(n) => SqlValue::Integer(*n),
        rusqlite::types::Value::Real(x) => SqlValue::Real(x.to_bits()),
        rusqlite::types::Value::Text(s) => SqlValue::Text(s.clone()),
        rusqlite::types::Value::Blob(bytes) => SqlValue::Blob(bytes.clone()),
    }
}

/// Calls `rusqlite::Connection::execute` with the statement `sql` and
/// `params` bound to its placeholders in order. On success the engine
/// reports how many rows the statement changed. Nothing is claimed of the
/// outcome: it depends on what the database holds.
#[verifier::external_body]
pub(crate) fn execute(
    conn: &rusqlite::Connection,
    sql: &str,
    params: &Vec<rusqlite::types::Value>,
) -> (r: Result<usize, rusqlite::Error>)
{
    conn.execute(sql, rusqlite::params_from_iter(params.iter()))
}

/// Prepares the query `sql` with `rusqlite::Connection::prepare`, runs it
/// with `rusqlite::Statement::query` on `params`, and reads every column of
/// every row with `rusqlite::Row::get`, in the order in which the engine
/// yields the rows. The first error ends the call. Nothing is claimed of the
/// outcome: it depends on what the database holds.
#[verifier::external_body]
pub(crate) fn query_rows(
    conn: &rusqlite::Connection,
    sql: &str,
    params: &Vec<rusqlite::types::Value>,
) -> (r: Result<Vec<Vec<rusqlite::types::Value>>, rusqlite::Error>)
{
    let mut stmt = conn.prepare(sql)?;
    let width = stmt.column_count();
    let mut rows = stmt.query(rusqlite::params_from_iter(params.iter()))?;
    let mut found = Vec::new();
    while let Some(row) = rows.next()? {
        let mut cells = Vec::new();
        for index in 0..width {
            cells.push(row.get(index)?);
        }
        found.push(cells);
    }
    Ok(found)
}

} // verus!
