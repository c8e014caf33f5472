//! Plain values that cross the boundary to the engine: what a statement
//! binds to its placeholders, and what a result row holds in a column.

use vstd::prelude::*;

verus! {

/// A value bound to a placeholder of a statement.
#[derive(Clone, Debug, PartialEq, Eq)]
pub enum SqlValue {
    Null,
    Integer(i64),
    Text(String),
}

/// The mathematical content of a [`SqlValue`].
pub enum SqlValueView {
    Null,
    Integer(int),
    Text(Seq<char>),
}

impl View for SqlValue {
    type V = SqlValueView;

    open spec fn view(&self) -> SqlValueView {
        match self {
            SqlValue::Null => SqlValueView::Null,
            SqlValue::Integer(i) => SqlValueView::Integer(*i as int),
            SqlValue::Text(s) => SqlValueView::Text(s@),
        }
    }
}

/// What a result row holds in one column, by the engine's storage class.
/// Text is kept as the stored bytes, which need not be valid UTF-8. The
/// payload of a real number or a blob is dropped: no column of the schema
/// stores either.
#[derive(Clone, Debug, PartialEq, Eq)]
pub enum Cell {
    Null,
    Integer(i64),
    Real,
    Text(Vec<u8>),
    Blob,
}

/// The mathematical content of a [`Cell`].
pub enum CellView {
    Null,
    Integer(int),
    Real,
    Text(Seq<u8>),
    Blob,
}

impl View for Cell {
    type V = CellView;

    open spec fn view(&self) -> CellView {
        match self {
            Cell::Null => CellView::Null,
            Cell::Integer(i) => CellView::Integer(*i as int),
            Cell::Real => CellView::Real,
            Cell::Text(b) => CellView::Text(b@),
            Cell::Blob => CellView::Blob,
        }
    }
}

} // verus!
