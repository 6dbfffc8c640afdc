//! Reading the recorded work for the statistics.

use vstd::prelude::*;
use rusqlite::Connection;
use crate::db::sql::{
    bound, get_flag, get_int, get_opt_int, get_text, int_at, opt_int_at, run_query, run_query_first, text_at, DbError,
    ParamSpec, SqlStatement, SqlValue,
};
use crate::error::{is_read_failure, AppError};
use crate::stats::SessionRow;

verus! {

/// Whether `row` (todo_id, started_at, duration_secs, completed, interruption_count) holds `s`.
pub open spec fn row_holds_session_row(row: Seq<SqlValue>, s: SessionRow) -> bool {
    &&& int_at(row, 0) == Some(s.todo_id)
    &&& text_at(row, 1) == Some(s.started_at@)
    &&& int_at(row, 2) == Some(s.duration_secs)
    &&& int_at(row, 3) matches Some(c) && s.completed == (c != 0)
    &&& int_at(row, 4) == Some(s.interruptions)
}

/// Whether every column of `row` can be read as a session row.
pub open spec fn row_is_session_row(row: Seq<SqlValue>) -> bool {
    &&& int_at(row, 0) is Some && text_at(row, 1) is Some && int_at(row, 2) is Some
    &&& int_at(row, 3) is Some && int_at(row, 4) is Some
}

/// Reads a session row; a column of the wrong kind fails with `ColumnType`.
pub fn session_row_from(row: &Vec<SqlValue>) -> (r: Result<SessionRow, DbError>)
    ensures
        r matches Ok(s) ==> row_holds_session_row(row@, s),
        r is Ok <==> row_is_session_row(row@),
        r matches Err(e) ==> e is ColumnType,
{
    let todo_id = match get_int(row, 0) { Ok(v) => v, Err(e) => { return Err(e); } };
    let started_at = match get_text(row, 1) { Ok(v) => v, Err(e) => { return Err(e); } };
    let duration_secs = match get_int(row, 2) { Ok(v) => v, Err(e) => { return Err(e); } };
    let completed = match get_flag(row, 3) { Ok(v) => v, Err(e) => { return Err(e); } };
    let interruptions = match get_int(row, 4) { Ok(v) => v, Err(e) => { return Err(e); } };
    Ok(SessionRow { todo_id, started_at, duration_secs, completed, interruptions })
}

/// Reads every row as a session row; the first unreadable row fails the
/// whole list with `ColumnType`.
pub fn session_rows_from(rows: &Vec<Vec<SqlValue>>) -> (r: Result<Vec<SessionRow>, DbError>)
    ensures
        r matches Ok(v) ==> v@.len() == rows@.len()
            && forall|i: int| 0 <= i < rows@.len() ==> row_holds_session_row(#[trigger] rows@[i]@, v@[i]),
        r is Ok <==> forall|i: int| 0 <= i < rows@.len() ==> row_is_session_row(#[trigger] rows@[i]@),
        r matches Err(e) ==> e is ColumnType,
{
    let mut out: Vec<SessionRow> = Vec::new();
    let mut i: usize = 0;
    while i < rows.len()
        invariant
            i <= rows@.len(),
            out@.len() == i,
            forall|k: int| 0 <= k < i ==> row_holds_session_row(#[trigger] rows@[k]@, out@[k]),
            forall|k: int| 0 <= k < i ==> row_is_session_row(#[trigger] rows@[k]@),
        decreases rows@.len() - i,
    {
        match session_row_from(&rows[i]) {
            Ok(s) => out.push(s),
            Err(e) => { return Err(e); },
        }
        i = i + 1;
    }
    Ok(out)
}

/// The query of `load_sessions`: every chunk with some work.
pub fn load_sessions_statement() -> (s: SqlStatement)
    ensures
        s.sql@ == "SELECT todo_id, started_at, duration_secs, completed, interruption_count FROM pomodoro_session WHERE duration_secs > 0"@,
        bound(s.params@) == Seq::<ParamSpec>::empty(),
{
    SqlStatement::new("SELECT todo_id, started_at, duration_secs, completed, interruption_count FROM pomodoro_session WHERE duration_secs > 0")
}

/// The query of `estimation_counts`: estimate and count of a todo.
pub fn estimation_statement(todo_id: i64) -> (s: SqlStatement)
    ensures
        s.sql@ == "SELECT target_count, pomodoro_count FROM todo WHERE id = ?1"@,
        bound(s.params@) == seq![ParamSpec::Integer(todo_id)],
{
    SqlStatement::new("SELECT target_count, pomodoro_count FROM todo WHERE id = ?1").integer(todo_id)
}

/// Every chunk with some work.
pub fn load_sessions(conn: &Connection) -> (r: Result<Vec<SessionRow>, AppError>)
    ensures
        r matches Err(e) ==> is_read_failure(e),
{
    let rows = match run_query(conn, &load_sessions_statement()) {
        Ok(rows) => rows,
        Err(e) => { return Err(AppError::Database(e)); },
    };
    match session_rows_from(&rows) {
        Ok(out) => Ok(out),
        Err(e) => Err(AppError::Database(e)),
    }
}

/// What the estimation log records of a finished todo: its estimate and its
/// actual pomodoro count. A todo without an estimate (or that cannot be
/// read) gives none, and nothing is recorded for it.
pub fn estimation_counts(conn: &Connection, todo_id: i64) -> Option<(i64, i64)> {
    let row = match run_query_first(conn, &estimation_statement(todo_id)) {
        Ok(row) => row,
        Err(_) => { return None; },
    };
    estimate_of_row(&row)
}

/// The estimate and actual count in a (target_count, pomodoro_count) row, if
/// both are there.
pub fn estimate_of_row(row: &Vec<SqlValue>) -> (r: Option<(i64, i64)>)
    ensures
        r matches Some(p) ==> opt_int_at(row@, 0) == Some(Some(p.0)) && int_at(row@, 1) == Some(p.1),
        r is None ==> !(opt_int_at(row@, 0) matches Some(Some(_)) && int_at(row@, 1) is Some),
{
    let target = match get_opt_int(row, 0) { Ok(v) => v, Err(_) => { return None; } };
    let actual = match get_int(row, 1) { Ok(v) => v, Err(_) => { return None; } };
    match target {
        Some(t) => Some((t, actual)),
        None => None,
    }
}

} // verus!
