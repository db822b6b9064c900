//! Reading the rows of a query as records.
//!
//! A row is the sequence of its column values. A field is read from the
//! column at its index: an integer field takes an integer that fits it, a
//! text field takes a text, and every other value is an error that names the
//! column.

use vstd::prelude::*;
use crate::error::RowError;
use crate::record::{Message, MessageView};
use crate::value::{SqlValue, SqlValueView};

verus! {

/// The 32-bit integer that the column `index` of `row` gives, read as rows
/// are: from an integer within the 32-bit range.
pub open spec fn int32_at(row: Seq<SqlValueView>, index: usize) -> Result<int, RowError> {
    if index >= row.len() {
        Err(RowError::InvalidColumnIndex(index))
    } else {
        match row[index as int] {
            SqlValueView::Integer(n) => if i32::MIN <= n <= i32::MAX {
                Ok(n)
            } else {
                Err(RowError::IntegralValueOutOfRange(index, n as i64))
            },
            other => Err(RowError::InvalidColumnType(index, other.column_type())),
        }
    }
}

/// The text that the column `index` of `row` gives.
pub open spec fn text_at(row: Seq<SqlValueView>, index: usize) -> Result<Seq<char>, RowError> {
    if index >= row.len() {
        Err(RowError::InvalidColumnIndex(index))
    } else {
        match row[index as int] {
            SqlValueView::Text(s) => Ok(s),
            other => Err(RowError::InvalidColumnType(index, other.column_type())),
        }
    }
}

/// The chat turn that `row` gives: `id`, `workspace_id`, `sender`, `text` and
/// `created_at` from the columns 0 to 4. Where several columns cannot be
/// read, the error is that of the first.
pub open spec fn message_of_row(row: Seq<SqlValueView>) -> Result<MessageView, RowError> {
    match int32_at(row, 0) {
        Err(e) => Err(e),
        Ok(id) => match int32_at(row, 1) {
            Err(e) => Err(e),
            Ok(workspace_id) => match text_at(row, 2) {
                Err(e) => Err(e),
                Ok(sender) => match text_at(row, 3) {
                    Err(e) => Err(e),
                    Ok(text) => match text_at(row, 4) {
                        Err(e) => Err(e),
                        Ok(created_at) => Ok(
                            MessageView { id, workspace_id, sender, text, created_at },
                        ),
                    },
                },
            },
        }
    }
}

/// Whether `messages` are the chat turns that the rows of a listing give:
/// one for each row, at the row's place.
pub open spec fn rows_give(rows: Seq<Seq<SqlValueView>>, messages: Seq<MessageView>) -> bool {
    &&& messages.len() == rows.len()
    &&& forall|i: int|
        0 <= i < rows.len() ==> message_of_row(#[trigger] rows[i]) == Ok::<MessageView, RowError>(
            messages[i],
        )
}

/// Whether `e` is the error of the first row of a listing that cannot be
/// read.
pub open spec fn rows_fail_with(rows: Seq<Seq<SqlValueView>>, e: RowError) -> bool {
    exists|i: int|
        {
            &&& 0 <= i < rows.len()
            &&& message_of_row(#[trigger] rows[i]) == Err::<MessageView, RowError>(e)
            &&& forall|j: int| 0 <= j < i ==> message_of_row(#[trigger] rows[j]) is Ok
        }
}

/// The stored steps that the rows of a plan query give: the text in the first
/// column of the first row, or `None` where there is no row. Rows after the
/// first are not read.
pub open spec fn plan_text_of_rows(rows: Seq<Seq<SqlValueView>>) -> Result<
    Option<Seq<char>>,
    RowError,
> {
    if rows.len() == 0 {
        Ok(None)
    } else {
        match text_at(rows[0], 0) {
            Ok(text) => Ok(Some(text)),
            Err(e) => Err(e),
        }
    }
}

/// Reads the column `index` of `row` as a 32-bit integer.
pub fn read_int32(row: &Vec<SqlValue>, index: usize) -> (r: Result<i32, RowError>)
    ensures
        match r {
            Ok(n) => int32_at(row.deep_view(), index) == Ok::<int, RowError>(n as int),
            Err(e) => int32_at(row.deep_view(), index) == Err::<int, RowError>(e),
        },
{
    if index >= row.len() {
        return Err(RowError::InvalidColumnIndex(index));
    }
    match &row[index] {
        SqlValue::Integer(n) => {
            if i32::MIN as i64 <= *n && *n <= i32::MAX as i64 {
                Ok(*n as i32)
            } else {
                Err(RowError::IntegralValueOutOfRange(index, *n))
            }
        },
        other => Err(RowError::InvalidColumnType(index, other.column_type())),
    }
}

/// Reads the column `index` of `row` as a text.
pub fn read_text(row: &Vec<SqlValue>, index: usize) -> (r: Result<String, RowError>)
    ensures
        match r {
            Ok(s) => text_at(row.deep_view(), index) == Ok::<Seq<char>, RowError>(s@),
            Err(e) => text_at(row.deep_view(), index) == Err::<Seq<char>, RowError>(e),
        },
{
    if index >= row.len() {
        return Err(RowError::InvalidColumnIndex(index));
    }
    match &row[index] {
        SqlValue::Text(s) => Ok(s.clone()),
        other => Err(RowError::InvalidColumnType(index, other.column_type())),
    }
}

/// Reads `row` as a chat turn.
pub fn message_from_row(row: &Vec<SqlValue>) -> (r: Result<Message, RowError>)
    ensures
        match r {
            Ok(message) => message_of_row(row.deep_view()) == Ok::<MessageView, RowError>(
                message@,
            ),
            Err(e) => message_of_row(row.deep_view()) == Err::<MessageView, RowError>(e),
        },
{
    let id = match read_int32(row, 0) {
        Ok(n) => n,
        Err(e) => return Err(e),
    };
    let workspace_id = match read_int32(row, 1) {
        Ok(n) => n,
        Err(e) => return Err(e),
    };
    let sender = match read_text(row, 2) {
        Ok(s) => s,
        Err(e) => return Err(e),
    };
    let text = match read_text(row, 3) {
        Ok(s) => s,
        Err(e) => return Err(e),
    };
    let created_at = match read_text(row, 4) {
        Ok(s) => s,
        Err(e) => return Err(e),
    };
    Ok(Message { id, workspace_id, sender, text, created_at })
}

/// Reads every row of a listing as a chat turn, in the order of the rows.
///
/// Succeeds exactly where every row can be read, with one chat turn for each
/// row at the row's place. Otherwise the error is that of the first row that
/// cannot be read, and no chat turn is returned.
pub fn messages_from_rows(rows: &Vec<Vec<SqlValue>>) -> (r: Result<Vec<Message>, RowError>)
    ensures
        match r {
            Ok(messages) => rows_give(rows.deep_view(), messages.deep_view()),
            Err(e) => rows_fail_with(rows.deep_view(), e),
        },
{
    let mut messages: Vec<Message> = Vec::new();
    let mut at: usize = 0;
    while at < rows.len()
        invariant
            at <= rows.len(),
            rows_give(rows.deep_view().take(at as int), messages.deep_view()),
        decreases rows.len() - at,
    {
        assert(rows.deep_view()[at as int] == rows[at as int].deep_view());
        match message_from_row(&rows[at]) {
            Ok(message) => {
                messages.push(message);
            },
            Err(e) => {
                assert forall|j: int| 0 <= j < at implies message_of_row(
                    #[trigger] rows.deep_view()[j],
                ) is Ok by {
                    assert(rows.deep_view()[j] == rows.deep_view().take(at as int)[j]);
                }
                return Err(e);
            },
        }
        at = at + 1;
    }
    assert(rows.deep_view().take(at as int) =~= rows.deep_view());
    Ok(messages)
}

/// Reads the rows of a plan query: the stored steps of the first row, if
/// there is a row.
pub fn plan_text_from_rows(rows: &Vec<Vec<SqlValue>>) -> (r: Result<Option<String>, RowError>)
    ensures
        match r {
            Ok(Some(text)) => plan_text_of_rows(rows.deep_view()) == Ok::<
                Option<Seq<char>>,
                RowError,
            >(Some(text@)),
            Ok(None) => plan_text_of_rows(rows.deep_view()) == Ok::<Option<Seq<char>>, RowError>(
                None,
            ),
            Err(e) => plan_text_of_rows(rows.deep_view()) == Err::<Option<Seq<char>>, RowError>(e),
        },
{
    if rows.len() == 0 {
        return Ok(None);
    }
    match read_text(&rows[0], 0) {
        Ok(text) => Ok(Some(text)),
        Err(e) => Err(e),
    }
}

} // verus!
