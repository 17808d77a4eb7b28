//! The edge of verification: the calls into `rusqlite`.
//!
//! Nothing in this module is proved. Each function makes one call, with the
//! store's values turned into `rusqlite`'s where the call takes those, and
//! hands the answer back as it came. Where a function takes a statement, its
//! precondition admits the store's own statements and no others.
//!
//! Whether a call succeeds, and what it does to the database, is decided by
//! SQLite and by what the database file holds, and nothing is claimed of it:
//! callers are verified for every answer. What is claimed is how an answer
//! hangs together with the row it was read from, as the source of `rusqlite`
//! shows it: a column is read as an integer or as a text exactly where it
//! holds one, and a cursor hands out the row it stands on. For that, what a
//! row holds has a name, [`cells`], and so has what a cursor stands on,
//! [`standing`].
use vstd::prelude::*;
use crate::statement::{is_query_text, is_schema_text, is_write, SqlStatement, SqlValue};

verus! {

/// `rusqlite::Connection`, a handle on one open database. Opaque.
#[verifier::external_type_specification]
#[verifier::external_body]
pub struct ExConnection(rusqlite::Connection);

/// `rusqlite::Error`, whatever `rusqlite` reports as a failure. Opaque.
#[verifier::external_type_specification]
#[verifier::external_body]
pub struct ExError(rusqlite::Error);

/// `rusqlite::Statement`, a prepared statement. Opaque.
#[verifier::external_type_specification]
#[verifier::external_body]
pub struct ExStatement<'conn>(rusqlite::Statement<'conn>);

/// `rusqlite::Rows`, the cursor over the rows a query yields. Opaque.
#[verifier::external_type_specification]
#[verifier::external_body]
pub struct ExRows<'stmt>(rusqlite::Rows<'stmt>);

/// `rusqlite::Row`, the row a cursor stands on. Opaque.
#[verifier::external_type_specification]
#[verifier::external_body]
pub struct ExRow<'stmt>(rusqlite::Row<'stmt>);

/// Calls `rusqlite::Connection::open`, which opens the database at `path`
/// for reading and writing and creates the file if it is missing.
/// Nothing is claimed of the result.
#[verifier::external_body]
pub(crate) fn open_connection(path: &str) -> (r: Result<rusqlite::Connection, rusqlite::Error>)
{
    rusqlite::Connection::open(path)
}

/// Calls `rusqlite::Connection::execute_batch`, which runs the statements
/// of `sql` one after the other and stops at the first that fails.
/// Only a schema statement is handed over. Nothing is claimed of the result.
#[verifier::external_body]
pub(crate) fn execute_batch(conn: &rusqlite::Connection, sql: &str) -> (r: Result<
    (),
    rusqlite::Error,
>)
    requires
        is_schema_text(sql@),
{
    conn.execute_batch(sql)
}

/// Calls `rusqlite::Connection::execute`, which prepares the single
/// statement `statement.sql`, binds `statement.params[i]` to placeholder
/// `i + 1` (an integer as an integer, a text as a text) and runs it; it
/// answers with the number of rows that SQLite reports as changed.
/// Only a statement that changes rows is handed over. Nothing is claimed of
/// the result.
#[verifier::external_body]
pub(crate) fn execute(conn: &rusqlite::Connection, statement: &SqlStatement) -> (r: Result<
    usize,
    rusqlite::Error,
>)
    requires
        is_write(statement@),
{
    conn.execute(
        statement.sql,
        rusqlite::params_from_iter(
            statement.params.iter().map(
                |p| match p {
                    SqlValue::Integer(i) => rusqlite::types::Value::Integer(*i),
                    SqlValue::Text(t) => rusqlite::types::Value::Text(t.clone()),
                },
            ),
        ),
    )
}

/// Calls `rusqlite::Connection::prepare`, which compiles the single
/// statement `sql`. Only a statement that reads a table is handed over.
/// Nothing is claimed of the result.
#[verifier::external_body]
pub(crate) fn prepare<'conn>(conn: &'conn rusqlite::Connection, sql: &str) -> (r: Result<
    rusqlite::Statement<'conn>,
    rusqlite::Error,
>)
    requires
        is_query_text(sql@),
{
    conn.prepare(sql)
}

/// Calls `rusqlite::Statement::query` with no parameter, which hands out a
/// cursor placed before the first row. Nothing is claimed of the result.
#[verifier::external_body]
pub(crate) fn query<'stmt>(stmt: &'stmt mut rusqlite::Statement<'_>) -> (r: Result<
    rusqlite::Rows<'stmt>,
    rusqlite::Error,
>)
{
    stmt.query(())
}

/// What a column of a row holds, as far as the store tells values apart.
pub enum Cell {
    /// An integer of SQLite.
    Integer(i64),
    /// A text of SQLite whose bytes are the UTF-8 of these characters.
    Text(Seq<char>),
    /// Anything else: a null, a real, a blob, a text that is no UTF-8.
    Other,
}

/// What `row` holds: one cell for each column of the statement, in order.
pub uninterp spec fn cells(row: rusqlite::Row<'_>) -> Seq<Cell>;

/// The integer in cell `index`, if there is such a cell and it holds one.
pub open spec fn integer_at(cells: Seq<Cell>, index: int) -> Option<i64> {
    if 0 <= index < cells.len() {
        match cells[index] {
            Cell::Integer(v) => Some(v),
            _ => None,
        }
    } else {
        None
    }
}

/// The text in cell `index`, if there is such a cell and it holds one.
pub open spec fn text_at(cells: Seq<Cell>, index: int) -> Option<Seq<char>> {
    if 0 <= index < cells.len() {
        match cells[index] {
            Cell::Text(t) => Some(t),
            _ => None,
        }
    } else {
        None
    }
}

/// What the row holds on which `rows` stands, if it stands on one.
pub uninterp spec fn standing(rows: rusqlite::Rows<'_>) -> Option<Seq<Cell>>;

/// Calls `rusqlite::Rows::next`, which steps the cursor and hands out the
/// row it keeps: `Ok(Some(row))` where the step came to a row, on which the
/// cursor then stands; `Ok(None)` past the last row and `Err` where the
/// step failed, after either of which the cursor stands on no row.
/// Nothing is claimed of which of the three comes, nor that the rows ever
/// end.
#[verifier::external_body]
pub(crate) fn next_row<'a, 'stmt>(rows: &'a mut rusqlite::Rows<'stmt>) -> (r: Result<
    Option<&'a rusqlite::Row<'stmt>>,
    rusqlite::Error,
>)
    ensures
        match r {
            Ok(Some(row)) => standing(*final(rows)) == Some(cells(*row)),
            Ok(None) => standing(*final(rows)) is None,
            Err(_) => standing(*final(rows)) is None,
        },
{
    rows.next()
}

/// Calls `rusqlite::Row::get` for an `i64`, which succeeds exactly where
/// the row has a column `index` and that column holds an integer, and then
/// answers with that integer.
#[verifier::external_body]
pub(crate) fn column_integer(row: &rusqlite::Row<'_>, index: usize) -> (r: Result<
    i64,
    rusqlite::Error,
>)
    ensures
        match r {
            Ok(v) => integer_at(cells(*row), index as int) == Some(v),
            Err(_) => integer_at(cells(*row), index as int) is None,
        },
{
    row.get(index)
}

/// Calls `rusqlite::Row::get` for a `String`, which succeeds exactly where
/// the row has a column `index` and that column holds a text that is UTF-8,
/// and then answers with that text.
#[verifier::external_body]
pub(crate) fn column_text(row: &rusqlite::Row<'_>, index: usize) -> (r: Result<
    String,
    rusqlite::Error,
>)
    ensures
        match r {
            Ok(s) => text_at(cells(*row), index as int) == Some(s@),
            Err(_) => text_at(cells(*row), index as int) is None,
        },
{
    row.get(index)
}

} // verus!
