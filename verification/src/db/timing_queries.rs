//! The `timing` table: built-in and custom timings of todos.

use vstd::prelude::*;
use rusqlite::Connection;
use crate::db::sql::{
    bound, get_flag, get_int, get_text, int_at, last_insert_rowid, run, run_query, run_query_first, text_at, DbError,
    ParamSpec, SqlStatement, SqlValue,
};
use crate::error::{is_read_failure, AppError};
use crate::model::{Timing, DEFAULT_TIMING};

verus! {

/// Whether `row` (id, key, name, color, is_builtin) holds `timing`.
pub open spec fn row_holds_timing(row: Seq<SqlValue>, timing: Timing) -> bool {
    &&& int_at(row, 0) == Some(timing.id)
    &&& text_at(row, 1) == Some(timing.key@)
    &&& text_at(row, 2) == Some(timing.name@)
    &&& text_at(row, 3) == Some(timing.color@)
    &&& int_at(row, 4) matches Some(b) && timing.is_builtin == (b != 0)
}

pub fn timing_from_row(row: &Vec<SqlValue>) -> (r: Result<Timing, DbError>)
    ensures
        r matches Ok(t) ==> row_holds_timing(row@, t),
        r is Ok <==> (int_at(row@, 0) is Some && text_at(row@, 1) is Some && text_at(row@, 2) is Some
            && text_at(row@, 3) is Some && int_at(row@, 4) is Some),
        r matches Err(e) ==> e is ColumnType,
{
    let id = match get_int(row, 0) { Ok(v) => v, Err(e) => { return Err(e); } };
    let key = match get_text(row, 1) { Ok(v) => v, Err(e) => { return Err(e); } };
    let name = match get_text(row, 2) { Ok(v) => v, Err(e) => { return Err(e); } };
    let color = match get_text(row, 3) { Ok(v) => v, Err(e) => { return Err(e); } };
    let is_builtin = match get_flag(row, 4) { Ok(v) => v, Err(e) => { return Err(e); } };
    Ok(Timing { id, key, name, color, is_builtin })
}

/// Whether every column of `row` (id, key, name, color, is_builtin) can be read.
pub open spec fn row_is_timing(row: Seq<SqlValue>) -> bool {
    int_at(row, 0) is Some && text_at(row, 1) is Some && text_at(row, 2) is Some
        && text_at(row, 3) is Some && int_at(row, 4) is Some
}

/// Reads every row as a timing; the first unreadable row fails the whole
/// list with `ColumnType`.
pub fn timings_from_rows(rows: &Vec<Vec<SqlValue>>) -> (r: Result<Vec<Timing>, DbError>)
    ensures
        r matches Ok(v) ==> v@.len() == rows@.len()
            && forall|i: int| 0 <= i < rows@.len() ==> row_holds_timing(#[trigger] rows@[i]@, v@[i]),
        r is Ok <==> forall|i: int| 0 <= i < rows@.len() ==> row_is_timing(#[trigger] rows@[i]@),
        r matches Err(e) ==> e is ColumnType,
{
    let mut out: Vec<Timing> = Vec::new();
    let mut i: usize = 0;
    while i < rows.len()
        invariant
            i <= rows@.len(),
            out@.len() == i,
            forall|k: int| 0 <= k < i ==> row_holds_timing(#[trigger] rows@[k]@, out@[k]),
            forall|k: int| 0 <= k < i ==> row_is_timing(#[trigger] rows@[k]@),
        decreases rows@.len() - i,
    {
        match timing_from_row(&rows[i]) {
            Ok(t) => out.push(t),
            Err(e) => { return Err(e); },
        }
        i = i + 1;
    }
    Ok(out)
}

/// The query of `list`: every timing, in display order.
pub fn list_statement() -> (s: SqlStatement)
    ensures
        s.sql@ == "SELECT id, key, name, color, is_builtin FROM timing ORDER BY sort_order ASC"@,
        bound(s.params@) == Seq::<ParamSpec>::empty(),
{
    SqlStatement::new("SELECT id, key, name, color, is_builtin FROM timing ORDER BY sort_order ASC")
}

/// The insert of `create`: the name as key and as name, then the colour; it goes after the others and is not built in.
pub fn create_statement(name: &str, color: &str) -> (s: SqlStatement)
    ensures
        s.sql@ == "INSERT INTO timing (key, name, color, sort_order, is_builtin) VALUES (?1, ?2, ?3, (SELECT COALESCE(MAX(sort_order), -1) FROM timing) + 1, 0)"@,
        bound(s.params@) == seq![ParamSpec::Text(name@), ParamSpec::Text(name@), ParamSpec::Text(color@)],
{
    SqlStatement::new("INSERT INTO timing (key, name, color, sort_order, is_builtin) VALUES (?1, ?2, ?3, (SELECT COALESCE(MAX(sort_order), -1) FROM timing) + 1, 0)").text(name).text(name).text(color)
}

/// The read-back of `create`: the timing with this id.
pub fn get_statement(id: i64) -> (s: SqlStatement)
    ensures
        s.sql@ == "SELECT id, key, name, color, is_builtin FROM timing WHERE id = ?1"@,
        bound(s.params@) == seq![ParamSpec::Integer(id)],
{
    SqlStatement::new("SELECT id, key, name, color, is_builtin FROM timing WHERE id = ?1").integer(id)
}

/// The first query of `delete`: the key and kind of the timing.
pub fn lookup_statement(id: i64) -> (s: SqlStatement)
    ensures
        s.sql@ == "SELECT key, is_builtin FROM timing WHERE id = ?1"@,
        bound(s.params@) == seq![ParamSpec::Integer(id)],
{
    SqlStatement::new("SELECT key, is_builtin FROM timing WHERE id = ?1").integer(id)
}

/// The update of `delete`: todos of the timing `key` go to the default timing.
pub fn move_todos_statement(key: &str) -> (s: SqlStatement)
    ensures
        s.sql@ == "UPDATE todo SET category = ?1 WHERE category = ?2"@,
        bound(s.params@) == seq![ParamSpec::Text(DEFAULT_TIMING@), ParamSpec::Text(key@)],
{
    SqlStatement::new("UPDATE todo SET category = ?1 WHERE category = ?2").text(DEFAULT_TIMING).text(key)
}

/// The last statement of `delete`.
pub fn delete_statement(id: i64) -> (s: SqlStatement)
    ensures
        s.sql@ == "DELETE FROM timing WHERE id = ?1"@,
        bound(s.params@) == seq![ParamSpec::Integer(id)],
{
    SqlStatement::new("DELETE FROM timing WHERE id = ?1").integer(id)
}

/// All timings, in their display order.
pub fn list(conn: &Connection) -> (r: Result<Vec<Timing>, AppError>)
    ensures
        r matches Err(e) ==> is_read_failure(e),
{
    let rows = match run_query(conn, &list_statement()) {
        Ok(rows) => rows,
        Err(e) => { return Err(AppError::Database(e)); },
    };
    match timings_from_rows(&rows) {
        Ok(out) => Ok(out),
        Err(e) => Err(AppError::Database(e)),
    }
}

/// Adds a custom timing after the others; its key is its name (keys are unique).
pub fn create(conn: &Connection, name: &str, color: &str) -> (r: Result<Timing, AppError>)
    ensures
        r matches Err(e) ==> e is Database,
{
    match run(conn, &create_statement(name, color)) {
        Ok(_) => {},
        Err(e) => { return Err(AppError::Database(e)); },
    }
    match run_query_first(conn, &get_statement(last_insert_rowid(conn))) {
        Ok(row) => match timing_from_row(&row) {
            Ok(t) => Ok(t),
            Err(e) => Err(AppError::Database(e)),
        },
        Err(e) => Err(AppError::Database(e)),
    }
}

/// What deleting a timing does, given what the lookup by id found.
#[derive(Debug, Clone, Copy, PartialEq, Eq, Structural)]
pub enum TimingDeletion {
    /// No such timing, or a built-in one: nothing changes.
    Keep,
    /// A custom timing: its todos go back to the default timing, then it goes.
    Remove,
}

/// A missing or built-in timing is kept; a custom one is removed.
pub fn deletion_for(is_builtin: Option<bool>) -> (d: TimingDeletion)
    ensures
        d == (if is_builtin == Some(false) { TimingDeletion::Remove } else { TimingDeletion::Keep }),
{
    match is_builtin {
        Some(false) => TimingDeletion::Remove,
        _ => TimingDeletion::Keep,
    }
}

/// Deletes a custom timing and moves its todos to the default timing.
/// Built-in timings and unknown ids are left alone.
pub fn delete(conn: &Connection, id: i64) -> (r: Result<(), AppError>)
    ensures
        r matches Err(e) ==> is_read_failure(e),
{
    let (key, is_builtin) = match run_query_first(conn, &lookup_statement(id)) {
        Ok(row) => {
            let key = match get_text(&row, 0) { Ok(v) => v, Err(e) => { return Err(AppError::Database(e)); } };
            let b = match get_flag(&row, 1) { Ok(v) => v, Err(e) => { return Err(AppError::Database(e)); } };
            (key, Some(b))
        },
        Err(DbError::NoRows) => (String::new(), None),
        Err(e) => { return Err(AppError::Database(e)); },
    };
    match deletion_for(is_builtin) {
        TimingDeletion::Keep => Ok(()),
        TimingDeletion::Remove => {
            match run(conn, &move_todos_statement(key.as_str())) {
                Ok(_) => {},
                Err(e) => { return Err(AppError::Database(e)); },
            }
            match run(conn, &delete_statement(id)) {
                Ok(_) => Ok(()),
                Err(e) => Err(AppError::Database(e)),
            }
        },
    }
}

} // verus!
