//! The plain values that go to the database engine and come back from it.

use vstd::prelude::*;

verus! {

/// A value bound to a placeholder of a statement.
#[derive(Debug, PartialEq, Eq)]
pub enum SqlParam {
    Integer(i64),
    Text(String),
}

/// What a [`SqlParam`] holds, as a mathematical value.
pub enum SqlParamView {
    Integer(int),
    Text(Seq<char>),
}

impl SqlParamView {
    /// The column value that holds what the parameter holds.
    pub open spec fn as_value(self) -> SqlValueView {
        match self {
            SqlParamView::Integer(n) => SqlValueView::Integer(n),
            SqlParamView::Text(s) => SqlValueView::Text(s),
        }
    }
}

impl View for SqlParam {
    type V = SqlParamView;

    open spec fn view(&self) -> SqlParamView {
        match *self {
            SqlParam::Integer(n) => SqlParamView::Integer(n as int),
            SqlParam::Text(s) => SqlParamView::Text(s@),
        }
    }
}

impl DeepView for SqlParam {
    type V = SqlParamView;

    open spec fn deep_view(&self) -> SqlParamView {
        self@
    }
}

/// The storage class of a column value.
#[derive(Debug, Clone, Copy, PartialEq, Eq, Structural)]
pub enum ColumnType {
    Null,
    Integer,
    Real,
    Text,
    Blob,
}

/// The value of one column of a row that a query returned.
///
/// A floating-point value is carried as its IEEE 754 bit pattern: the store
/// never computes with one.
#[derive(Debug, PartialEq, Eq)]
pub enum SqlValue {
    Null,
    Integer(i64),
    Real(u64),
    Text(String),
    Blob(Vec<u8>),
}

/// What a [`SqlValue`] holds, as a mathematical value.
pub enum SqlValueView {
    Null,
    Integer(int),
    Real(int),
    Text(Seq<char>),
    Blob(Seq<u8>),
}

impl SqlValueView {
    /// The storage class of the value.
    pub open spec fn column_type(self) -> ColumnType {
        match self {
            SqlValueView::Null => ColumnType::Null,
            SqlValueView::Integer(_) => ColumnType::Integer,
            SqlValueView::Real(_) => ColumnType::Real,
            SqlValueView::Text(_) => ColumnType::Text,
            SqlValueView::Blob(_) => ColumnType::Blob,
        }
    }
}

impl View for SqlValue {
    type V = SqlValueView;

    open spec fn view(&self) -> SqlValueView {
        match *self {
            SqlValue::Null => SqlValueView::Null,
            SqlValue::Integer(n) => SqlValueView::Integer(n as int),
            SqlValue::Real(bits) => SqlValueView::Real(bits as int),
            SqlValue::Text(s) => SqlValueView::Text(s@),
            SqlValue::Blob(bytes) => SqlValueView::Blob(bytes@),
        }
    }
}

impl DeepView for SqlValue {
    type V = SqlValueView;

    open spec fn deep_view(&self) -> SqlValueView {
        self@
    }
}

impl SqlValue {
    /// The storage class of the value.
    pub fn column_type(&self) -> (kind: ColumnType)
        ensures
            kind == self@.column_type(),
    {
        match self {
            SqlValue::Null => ColumnType::Null,
            SqlValue::Integer(_) => ColumnType::Integer,
            SqlValue::Real(_) => ColumnType::Real,
            SqlValue::Text(_) => ColumnType::Text,
            SqlValue::Blob(_) => ColumnType::Blob,
        }
    }
}

} // verus!
