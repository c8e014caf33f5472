//! The boundary to SQLite. Everything here is taken on trust: the contracts
//! say what the `rusqlite` calls are relied on for, and nothing below is
//! proved.

use vstd::prelude::*;
use vstd::string::StringSliceAdditionalSpecFns;
use crate::statement::placeholders;
use crate::value::{Cell, SqlValue};

verus! {

#[verifier::external_type_specification]
#[verifier::external_body]
pub struct ExConnection(rusqlite::Connection);

#[verifier::external_type_specification]
#[verifier::external_body]
pub struct ExError(rusqlite::Error);

#[verifier::external_type_specification]
#[verifier::external_body]
pub struct ExValue(rusqlite::types::Value);

#[verifier::external_type_specification]
#[verifier::external_body]
pub struct ExRow<'stmt>(rusqlite::Row<'stmt>);

#[verifier::external_type_specification]
#[verifier::external_body]
pub struct ExUtf8Error(core::str::Utf8Error);

/// `core::str::from_utf8`: succeeds exactly on the byte strings that are
/// valid UTF-8, and the string it then returns is made of those very bytes.
pub assume_specification[ core::str::from_utf8 ](bytes: &[u8]) -> (text: Result<
    &str,
    core::str::Utf8Error,
>)
    ensures
        text is Ok <==> vstd::utf8::valid_utf8(bytes@),
        text matches Ok(s) ==> s.spec_bytes() == bytes@,
;

/// `rusqlite::Connection::open`: opens the database file at `path`, creating
/// it if it is absent. Nothing is claimed of the outcome.
#[verifier::external_body]
pub(crate) fn open(path: &str) -> Result<rusqlite::Connection, rusqlite::Error> {
    rusqlite::Connection::open(path)
}

/// `rusqlite::Connection::last_insert_rowid`: the row id of the most recent
/// successful insert on this connection. Nothing is claimed of its value.
pub assume_specification[ rusqlite::Connection::last_insert_rowid ](
    conn: &rusqlite::Connection,
) -> i64;

/// Turns a bound value into the engine's own value type, variant by variant.
#[verifier::external_body]
pub(crate) fn engine_value(value: &SqlValue) -> rusqlite::types::Value {
    match value {
        SqlValue::Null => rusqlite::types::Value::Null,
        SqlValue::Integer(i) => rusqlite::types::Value::Integer(*i),
        SqlValue::Text(s) => rusqlite::types::Value::Text(s.clone()),
    }
}

/// `rusqlite::Connection::execute`: prepares `sql`, binds `params` to its
/// placeholders in order and runs it; on success the count of rows changed.
/// Nothing is claimed of the outcome: it depends on what the file holds.
/// The call is made only with as many values as the text has placeholders;
/// with any other number the engine would turn the statement down.
#[verifier::external_body]
pub(crate) fn execute(conn: &rusqlite::Connection, sql: &str, params: &Vec<SqlValue>) -> Result<
    usize,
    rusqlite::Error,
>
    requires
        placeholders(sql@) == params@.len(),
{
    conn.execute(sql, rusqlite::params_from_iter(params.iter().map(engine_value)))
}

/// `rusqlite::Row::get_ref`: the value in column `index` of a result row,
/// turned into a [`Cell`] variant by variant; an error if the row has no
/// such column. Nothing is claimed of the value: it is what the file holds.
#[verifier::external_body]
pub(crate) fn cell_at(row: &rusqlite::Row<'_>, index: usize) -> Result<Cell, rusqlite::Error> {
    Ok(
        match row.get_ref(index)? {
            rusqlite::types::ValueRef::Null => Cell::Null,
            rusqlite::types::ValueRef::Integer(i) => Cell::Integer(i),
            rusqlite::types::ValueRef::Real(_) => Cell::Real,
            rusqlite::types::ValueRef::Text(bytes) => Cell::Text(bytes.to_vec()),
            rusqlite::types::ValueRef::Blob(_) => Cell::Blob,
        },
    )
}

/// Reads the first `width` columns of a result row, in their order. A row
/// with fewer columns is an error. Nothing is asked of the engine for a
/// width of zero, so that reading succeeds, with no cell; for any other
/// width the engine decides, and a row that is read has `width` cells.
pub(crate) fn read_row(row: &rusqlite::Row<'_>, width: usize) -> (cells: Result<
    Vec<Cell>,
    rusqlite::Error,
>)
    ensures
        cells matches Ok(read) ==> read@.len() == width,
        width == 0 ==> cells is Ok,
{
    let mut cells: Vec<Cell> = Vec::new();
    let mut i: usize = 0;
    while i < width
        invariant
            i <= width,
            cells@.len() == i,
        decreases width - i,
    {
        match cell_at(row, i) {
            Ok(cell) => {
                cells.push(cell);
            },
            Err(error) => {
                return Err(error);
            },
        }
        i += 1;
    }
    Ok(cells)
}

/// `rusqlite::Connection::prepare` and `rusqlite::Statement::query_map`:
/// runs the query `sql`, which has no placeholders, reads each row it
/// yields with [`read_row`], and hands the rows back in the order in which
/// the engine yields them; the first failure ends the call. Nothing is
/// claimed of what the rows hold: it depends on what the file holds. Each
/// row of a successful result is what one call of [`read_row`] returned,
/// so it has exactly `width` cells. The call is made only with a text that
/// has no placeholder, since it binds nothing.
#[verifier::external_body]
pub(crate) fn query(conn: &rusqlite::Connection, sql: &str, width: usize) -> (rows: Result<
    Vec<Vec<Cell>>,
    rusqlite::Error,
>)
    requires
        placeholders(sql@) == 0,
    ensures
        rows matches Ok(found) ==> forall|i: int|
            0 <= i < found@.len() ==> (#[trigger] found@[i])@.len() == width,
{
    let mut stmt = conn.prepare(sql)?;
    let rows = stmt.query_map([], |row| read_row(row, width))?;
    rows.collect()
}

/// `rusqlite::Error::sqlite_error`: the extended result code of the engine,
/// if the failure came from the engine itself. Nothing is claimed of it.
#[verifier::external_body]
pub(crate) fn failure_code(error: &rusqlite::Error) -> Option<i32> {
    error.sqlite_error().map(|e| e.extended_code)
}

} // verus!
