//! The calls into SQLite. What a statement returns depends on the database
//! file, so nothing is claimed of it: the store's own functions say what they
//! make of each outcome. Of a result row this module says how its columns
//! are read, in which order they make a row of the table, and which column
//! is at fault where they make none.

use vstd::prelude::*;
use rusqlite::OptionalExtension;
use crate::error::{DecodeError, DecodeErrorView};
use crate::row::{RowView, SqlValue, StoredRow};
use crate::todo::text_view;

verus! {

/// rusqlite's connection to one database. It is closed when it is dropped.
#[verifier::external_type_specification]
#[verifier::external_body]
pub struct ExConnection(rusqlite::Connection);

/// rusqlite's row of a running query.
#[verifier::external_type_specification]
#[verifier::external_body]
pub struct ExRow<'stmt>(rusqlite::Row<'stmt>);

/// rusqlite's `Connection::open`: opens the database file at `path`, or
/// fails with the engine's error.
#[verifier::external_body]
pub(crate) fn open_database(path: &str) -> (r: Result<rusqlite::Connection, rusqlite::Error>) {
    rusqlite::Connection::open(path)
}

/// rusqlite's `Connection::last_insert_rowid`: the row identifier of the
/// last successful `INSERT` on this connection.
pub assume_specification[ rusqlite::Connection::last_insert_rowid ](
    conn: &rusqlite::Connection,
) -> (rowid: i64)
;

/// What one column of a result row holds, as far as the store reads it:
/// nothing, a whole number, a text, or something else (a real number, a
/// blob, a text that is no UTF-8).
pub enum Cell {
    Null,
    Integer(int),
    Text(Seq<char>),
    Other,
}

impl Cell {
    /// The number in a column that must hold one.
    pub open spec fn as_integer(self) -> Option<int> {
        match self {
            Cell::Integer(i) => Some(i),
            _ => None,
        }
    }

    /// The text in a column that must hold one.
    pub open spec fn as_text(self) -> Option<Seq<char>> {
        match self {
            Cell::Text(s) => Some(s),
            _ => None,
        }
    }

    /// The text in a column that may be empty.
    pub open spec fn as_optional_text(self) -> Option<Option<Seq<char>>> {
        match self {
            Cell::Null => Some(None),
            Cell::Text(s) => Some(Some(s)),
            _ => None,
        }
    }
}

/// The columns that a result row holds, the first of them first.
pub uninterp spec fn row_cells(row: rusqlite::Row<'_>) -> Seq<Cell>;

/// The column at `idx`; a column that is not there holds nothing that
/// can be read.
pub open spec fn cell_at(cells: Seq<Cell>, idx: int) -> Cell {
    if 0 <= idx < cells.len() {
        cells[idx]
    } else {
        Cell::Other
    }
}

/// The first column, in the order of the table, that is missing or holds
/// what its place does not allow: the identifier must be a whole number;
/// name, status, creation time and priority must be texts; the note and the
/// due date must be texts or empty.
pub open spec fn first_bad_column(cells: Seq<Cell>) -> Option<usize> {
    if cell_at(cells, 0).as_integer() is None {
        Some(0)
    } else if cell_at(cells, 1).as_text() is None {
        Some(1)
    } else if cell_at(cells, 2).as_optional_text() is None {
        Some(2)
    } else if cell_at(cells, 3).as_text() is None {
        Some(3)
    } else if cell_at(cells, 4).as_text() is None {
        Some(4)
    } else if cell_at(cells, 5).as_optional_text() is None {
        Some(5)
    } else if cell_at(cells, 6).as_text() is None {
        Some(6)
    } else {
        None
    }
}

/// The row of the table `todos` that seven columns make, in the order of
/// the table: identifier, name, note, status, creation time, due date,
/// priority; or the first column that is at fault.
pub open spec fn row_read(cells: Seq<Cell>) -> Result<RowView, DecodeErrorView> {
    match first_bad_column(cells) {
        Some(place) => Err(DecodeErrorView::Column(place)),
        None => Ok(
            RowView {
                id: cell_at(cells, 0).as_integer()->0,
                name: cell_at(cells, 1).as_text()->0,
                text: cell_at(cells, 2).as_optional_text()->0,
                status: cell_at(cells, 3).as_text()->0,
                created_at: cell_at(cells, 4).as_text()->0,
                due_date: cell_at(cells, 5).as_optional_text()->0,
                priority: cell_at(cells, 6).as_text()->0,
            },
        ),
    }
}

/// rusqlite's `Row::get` for an `i64`: the number in the column at `idx`,
/// or an error where the column is not there or holds no whole number.
#[verifier::external_body]
fn integer_at(row: &rusqlite::Row<'_>, idx: usize) -> (r: Result<i64, rusqlite::Error>)
    ensures
        match r {
            Ok(v) => cell_at(row_cells(*row), idx as int).as_integer() == Some(v as int),
            Err(_) => cell_at(row_cells(*row), idx as int).as_integer() is None,
        },
{
    row.get(idx)
}

/// rusqlite's `Row::get` for a `String`: the text in the column at `idx`,
/// or an error where the column is not there or holds no text.
#[verifier::external_body]
fn text_at(row: &rusqlite::Row<'_>, idx: usize) -> (r: Result<String, rusqlite::Error>)
    ensures
        match r {
            Ok(v) => cell_at(row_cells(*row), idx as int).as_text() == Some(v@),
            Err(_) => cell_at(row_cells(*row), idx as int).as_text() is None,
        },
{
    row.get(idx)
}

/// rusqlite's `Row::get` for an `Option<String>`: the text in the column at
/// `idx`, `None` where the column is empty, or an error where the column is
/// not there or holds something else.
#[verifier::external_body]
fn optional_text_at(row: &rusqlite::Row<'_>, idx: usize) -> (r: Result<
    Option<String>,
    rusqlite::Error,
>)
    ensures
        match r {
            Ok(v) => cell_at(row_cells(*row), idx as int).as_optional_text() == Some(
                text_view(v),
            ),
            Err(_) => cell_at(row_cells(*row), idx as int).as_optional_text() is None,
        },
{
    row.get(idx)
}

/// rusqlite's `Connection::execute` with the values bound in order: the
/// number of rows that the statement changed, or the engine's error.
#[verifier::external_body]
pub(crate) fn execute(conn: &rusqlite::Connection, sql: &str, values: &Vec<SqlValue>) -> (r: Result<
    usize,
    rusqlite::Error,
>) {
    let bound = values.iter().map(|v| match v {
        SqlValue::Null => rusqlite::types::Value::Null,
        SqlValue::Integer(i) => rusqlite::types::Value::Integer(*i),
        SqlValue::Text(s) => rusqlite::types::Value::Text(s.clone()),
    });
    conn.execute(sql, rusqlite::params_from_iter(bound))
}

/// rusqlite's `Connection::query_row`, the row read by [`read_row`], and
/// `OptionalExtension::optional`, which turns "no row" into `None`.
#[verifier::external_body]
pub(crate) fn query_one(conn: &rusqlite::Connection, sql: &str, id: u32) -> (r: Result<
    Option<Result<StoredRow, DecodeError>>,
    rusqlite::Error,
>) {
    conn.query_row(sql, [id], |row| Ok(read_row(row))).optional()
}

/// rusqlite's `Connection::prepare` and `Statement::query_map`, each row
/// read by [`read_row`]: the rows in the order in which the engine gives
/// them, or the engine's error.
#[verifier::external_body]
pub(crate) fn query_all(conn: &rusqlite::Connection, sql: &str) -> (r: Result<
    Vec<Result<StoredRow, DecodeError>>,
    rusqlite::Error,
>) {
    let mut stmt = conn.prepare(sql)?;
    let rows = stmt.query_map([], |row| Ok(read_row(row)))?;
    rows.collect()
}

/// The seven columns of a result row, in the order of the table:
/// identifier, name, note, status, creation time, due date, priority.
/// The first column that is missing, or holds what its place does not
/// allow, ends the reading and is named.
fn read_row(row: &rusqlite::Row<'_>) -> (r: Result<StoredRow, DecodeError>)
    ensures
        match row_read(row_cells(*row)) {
            Ok(v) => r matches Ok(stored) && stored@ == v,
            Err(e) => r matches Err(error) && error@ == e,
        },
{
    let id = match integer_at(row, 0) {
        Ok(v) => v,
        Err(_) => {
            return Err(DecodeError::Column(0));
        },
    };
    let name = match text_at(row, 1) {
        Ok(v) => v,
        Err(_) => {
            return Err(DecodeError::Column(1));
        },
    };
    let text = match optional_text_at(row, 2) {
        Ok(v) => v,
        Err(_) => {
            return Err(DecodeError::Column(2));
        },
    };
    let status = match text_at(row, 3) {
        Ok(v) => v,
        Err(_) => {
            return Err(DecodeError::Column(3));
        },
    };
    let created_at = match text_at(row, 4) {
        Ok(v) => v,
        Err(_) => {
            return Err(DecodeError::Column(4));
        },
    };
    let due_date = match optional_text_at(row, 5) {
        Ok(v) => v,
        Err(_) => {
            return Err(DecodeError::Column(5));
        },
    };
    let priority = match text_at(row, 6) {
        Ok(v) => v,
        Err(_) => {
            return Err(DecodeError::Column(6));
        },
    };
    Ok(StoredRow { id, name, text, status, created_at, due_date, priority })
}

} // verus!
