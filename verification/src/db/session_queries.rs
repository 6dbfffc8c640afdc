//! The `pomodoro_session` table: recorded chunks of work.

use vstd::prelude::*;
use rusqlite::Connection;
use crate::db::sql::{
    bound, get_flag, get_int, get_text, int_at, last_insert_rowid, run, run_logged, run_query, run_query_first, text_at,
    DbError, ParamSpec, Sent, SqlStatement, SqlValue,
};
use crate::db::todo_table::{record_focus_sql, tried};
use crate::error::{is_read_failure, is_sqlite_failure, AppError};
use crate::model::PomodoroSession;

verus! {

/// Whether `row` (id, todo_id, started_at, completed) holds `s`.
pub open spec fn row_holds_session(row: Seq<SqlValue>, s: PomodoroSession) -> bool {
    &&& int_at(row, 0) == Some(s.id)
    &&& int_at(row, 1) == Some(s.todo_id)
    &&& text_at(row, 2) == Some(s.started_at@)
    &&& int_at(row, 3) matches Some(c) && s.completed == (c != 0)
}

pub fn session_from_row(row: &Vec<SqlValue>) -> (r: Result<PomodoroSession, DbError>)
    ensures
        r matches Ok(s) ==> row_holds_session(row@, s),
        r is Ok <==> (int_at(row@, 0) is Some && int_at(row@, 1) is Some && text_at(row@, 2) is Some
            && int_at(row@, 3) is Some),
        r matches Err(e) ==> e is ColumnType,
{
    let id = match get_int(row, 0) { Ok(v) => v, Err(e) => { return Err(e); } };
    let todo_id = match get_int(row, 1) { Ok(v) => v, Err(e) => { return Err(e); } };
    let started_at = match get_text(row, 2) { Ok(v) => v, Err(e) => { return Err(e); } };
    let completed = match get_flag(row, 3) { Ok(v) => v, Err(e) => { return Err(e); } };
    Ok(PomodoroSession { id, todo_id, started_at, completed })
}

/// The read of a session by id.
pub fn get_statement(id: i64) -> (s: SqlStatement)
    ensures
        s.sql@ == "SELECT id, todo_id, started_at, completed FROM pomodoro_session WHERE id = ?1"@,
        bound(s.params@) == seq![ParamSpec::Integer(id)],
{
    SqlStatement::new("SELECT id, todo_id, started_at, completed FROM pomodoro_session WHERE id = ?1").integer(id)
}

/// The insert of `create`: the todo id, then the start.
pub fn create_statement(todo_id: i64, started_at: &str) -> (s: SqlStatement)
    ensures
        s.sql@ == "INSERT INTO pomodoro_session (todo_id, started_at) VALUES (?1, ?2)"@,
        bound(s.params@) == seq![ParamSpec::Integer(todo_id), ParamSpec::Text(started_at@)],
{
    SqlStatement::new("INSERT INTO pomodoro_session (todo_id, started_at) VALUES (?1, ?2)").integer(todo_id).text(started_at)
}

/// The insert of `record_completed`: the todo id, then the start.
pub fn record_completed_statement(todo_id: i64, started_at: &str) -> (s: SqlStatement)
    ensures
        s.sql@ == "INSERT INTO pomodoro_session (todo_id, started_at, completed) VALUES (?1, ?2, 1)"@,
        bound(s.params@) == seq![ParamSpec::Integer(todo_id), ParamSpec::Text(started_at@)],
{
    SqlStatement::new("INSERT INTO pomodoro_session (todo_id, started_at, completed) VALUES (?1, ?2, 1)").integer(todo_id).text(started_at)
}

/// The update of `complete`.
pub fn complete_statement(id: i64) -> (s: SqlStatement)
    ensures
        s.sql@ == "UPDATE pomodoro_session SET completed = 1 WHERE id = ?1"@,
        bound(s.params@) == seq![ParamSpec::Integer(id)],
{
    SqlStatement::new("UPDATE pomodoro_session SET completed = 1 WHERE id = ?1").integer(id)
}

/// The query of `list_by_todo`: a todo's sessions, oldest first.
pub fn list_by_todo_statement(todo_id: i64) -> (s: SqlStatement)
    ensures
        s.sql@ == "SELECT id, todo_id, started_at, completed FROM pomodoro_session WHERE todo_id = ?1 ORDER BY started_at ASC"@,
        bound(s.params@) == seq![ParamSpec::Integer(todo_id)],
{
    SqlStatement::new("SELECT id, todo_id, started_at, completed FROM pomodoro_session WHERE todo_id = ?1 ORDER BY started_at ASC").integer(todo_id)
}

/// The insert of `record_focus`: todo id, start, seconds, 1 or 0 for
/// completed, interruptions.
pub fn record_focus_statement(todo_id: i64, at: &str, duration_secs: i64, completed: bool, interruptions: i64) -> (s: SqlStatement)
    ensures
        s.sql@ == "INSERT INTO pomodoro_session (todo_id, started_at, duration_secs, completed, interruption_count) VALUES (?1, ?2, ?3, ?4, ?5)"@,
        bound(s.params@) == seq![
            ParamSpec::Integer(todo_id),
            ParamSpec::Text(at@),
            ParamSpec::Integer(duration_secs),
            ParamSpec::Integer(if completed { 1 } else { 0 }),
            ParamSpec::Integer(interruptions),
        ],
{
    SqlStatement::new(
        "INSERT INTO pomodoro_session (todo_id, started_at, duration_secs, completed, interruption_count) VALUES (?1, ?2, ?3, ?4, ?5)",
    ).integer(todo_id).text(at).integer(duration_secs).integer(if completed { 1 } else { 0 }).integer(interruptions)
}

/// The query of `chunks_since`: todo and seconds of the chunks with work since the cutoff.
pub fn chunks_since_statement(cutoff: &str) -> (s: SqlStatement)
    ensures
        s.sql@ == "SELECT todo_id, duration_secs FROM pomodoro_session WHERE started_at >= ?1 AND duration_secs > 0"@,
        bound(s.params@) == seq![ParamSpec::Text(cutoff@)],
{
    SqlStatement::new("SELECT todo_id, duration_secs FROM pomodoro_session WHERE started_at >= ?1 AND duration_secs > 0").text(cutoff)
}

fn get(conn: &Connection, id: i64) -> (r: Result<PomodoroSession, AppError>)
    ensures
        r matches Err(e) ==> e is Database,
{
    match run_query_first(conn, &get_statement(id)) {
        Ok(row) => match session_from_row(&row) {
            Ok(s) => Ok(s),
            Err(e) => Err(AppError::Database(e)),
        },
        Err(e) => Err(AppError::Database(e)),
    }
}

fn insert_then_get(conn: &Connection, st: &SqlStatement) -> (r: Result<PomodoroSession, AppError>)
    ensures
        r matches Err(e) ==> e is Database,
{
    match run(conn, st) {
        Ok(_) => get(conn, last_insert_rowid(conn)),
        Err(e) => Err(AppError::Database(e)),
    }
}

/// Starts a session for a todo (`create_statement`), then reads it back.
pub fn create(conn: &Connection, todo_id: i64, started_at: &str) -> (r: Result<PomodoroSession, AppError>)
    ensures
        r matches Err(e) ==> e is Database,
{
    insert_then_get(conn, &create_statement(todo_id, started_at))
}

/// Marks a session completed (`complete_statement`), then reads it back.
pub fn complete(conn: &Connection, id: i64) -> (r: Result<PomodoroSession, AppError>)
    ensures
        r matches Err(e) ==> e is Database,
{
    match run(conn, &complete_statement(id)) {
        Ok(_) => get(conn, id),
        Err(e) => Err(AppError::Database(e)),
    }
}

/// Whether every column of `row` (id, todo_id, started_at, completed) can be read.
pub open spec fn row_is_session(row: Seq<SqlValue>) -> bool {
    int_at(row, 0) is Some && int_at(row, 1) is Some && text_at(row, 2) is Some && int_at(row, 3) is Some
}

/// Reads every row as a session; the first unreadable row fails the whole
/// list with `ColumnType`.
pub fn sessions_from_rows(rows: &Vec<Vec<SqlValue>>) -> (r: Result<Vec<PomodoroSession>, DbError>)
    ensures
        r matches Ok(v) ==> v@.len() == rows@.len()
            && forall|i: int| 0 <= i < rows@.len() ==> row_holds_session(#[trigger] rows@[i]@, v@[i]),
        r is Ok <==> forall|i: int| 0 <= i < rows@.len() ==> row_is_session(#[trigger] rows@[i]@),
        r matches Err(e) ==> e is ColumnType,
{
    let mut out: Vec<PomodoroSession> = Vec::new();
    let mut i: usize = 0;
    while i < rows.len()
        invariant
            i <= rows@.len(),
            out@.len() == i,
            forall|k: int| 0 <= k < i ==> row_holds_session(#[trigger] rows@[k]@, out@[k]),
            forall|k: int| 0 <= k < i ==> row_is_session(#[trigger] rows@[k]@),
        decreases rows@.len() - i,
    {
        match session_from_row(&rows[i]) {
            Ok(s) => out.push(s),
            Err(e) => { return Err(e); },
        }
        i = i + 1;
    }
    Ok(out)
}

/// The sessions of a todo, oldest first.
pub fn list_by_todo(conn: &Connection, todo_id: i64) -> (r: Result<Vec<PomodoroSession>, AppError>)
    ensures
        r matches Err(e) ==> is_read_failure(e),
{
    let rows = match run_query(conn, &list_by_todo_statement(todo_id)) {
        Ok(rows) => rows,
        Err(e) => { return Err(AppError::Database(e)); },
    };
    match sessions_from_rows(&rows) {
        Ok(out) => Ok(out),
        Err(e) => Err(AppError::Database(e)),
    }
}

/// Records a session that is already completed.
pub fn record_completed(conn: &Connection, todo_id: i64, started_at: &str) -> (r: Result<PomodoroSession, AppError>)
    ensures
        r matches Err(e) ==> e is Database,
{
    insert_then_get(conn, &record_completed_statement(todo_id, started_at))
}

/// Records a chunk of work (on a pause, a switch of todo or a completed
/// session): the data of the statistics. Only completed chunks carry
/// interruptions.
pub fn record_focus(
    conn: &Connection,
    todo_id: i64,
    at: &str,
    duration_secs: i64,
    completed: bool,
    interruptions: i64,
) -> (r: Result<(), AppError>)
    ensures
        r matches Err(e) ==> is_sqlite_failure(e),
{
    record_focus_logged(conn, todo_id, at, duration_secs, completed, interruptions).0
}

/// `record_focus`, with the insert it sent (whether it ran or failed).
pub fn record_focus_logged(
    conn: &Connection,
    todo_id: i64,
    at: &str,
    duration_secs: i64,
    completed: bool,
    interruptions: i64,
) -> (r: (Result<(), AppError>, Ghost<Sent>))
    ensures
        r.0 matches Err(e) ==> is_sqlite_failure(e),
        tried(r.1@, record_focus_sql(), seq![
            ParamSpec::Integer(todo_id),
            ParamSpec::Text(at@),
            ParamSpec::Integer(duration_secs),
            ParamSpec::Integer(if completed { 1 } else { 0 }),
            ParamSpec::Integer(interruptions),
        ]),
{
    let (res, Ghost(sent)) = run_logged(conn, &record_focus_statement(todo_id, at, duration_secs, completed, interruptions));
    match res {
        Ok(_) => (Ok(()), Ghost(sent)),
        Err(e) => (Err(AppError::Database(e)), Ghost(sent)),
    }
}

/// Reads every (todo_id, duration_secs) row; the first row that does not
/// hold two integers fails the whole list with `ColumnType`.
pub fn chunks_from_rows(rows: &Vec<Vec<SqlValue>>) -> (r: Result<Vec<(i64, i64)>, DbError>)
    ensures
        r matches Ok(v) ==> v@.len() == rows@.len()
            && forall|i: int| 0 <= i < rows@.len() ==> int_at(#[trigger] rows@[i]@, 0) == Some(v@[i].0)
                && int_at(rows@[i]@, 1) == Some(v@[i].1),
        r is Ok <==> forall|i: int| 0 <= i < rows@.len()
            ==> int_at(#[trigger] rows@[i]@, 0) is Some && int_at(rows@[i]@, 1) is Some,
        r matches Err(e) ==> e is ColumnType,
{
    let mut out: Vec<(i64, i64)> = Vec::new();
    let mut i: usize = 0;
    while i < rows.len()
        invariant
            i <= rows@.len(),
            out@.len() == i,
            forall|k: int| 0 <= k < i ==> int_at(#[trigger] rows@[k]@, 0) == Some(out@[k].0)
                && int_at(rows@[k]@, 1) == Some(out@[k].1),
        decreases rows@.len() - i,
    {
        let todo_id = match get_int(&rows[i], 0) { Ok(v) => v, Err(e) => { return Err(e); } };
        let secs = match get_int(&rows[i], 1) { Ok(v) => v, Err(e) => { return Err(e); } };
        out.push((todo_id, secs));
        i = i + 1;
    }
    Ok(out)
}

/// The todo and duration of every chunk with some work since `cutoff` (RFC 3339 text order).
pub fn chunks_since(conn: &Connection, cutoff: &str) -> (r: Result<Vec<(i64, i64)>, AppError>)
    ensures
        r matches Err(e) ==> is_read_failure(e),
{
    let rows = match run_query(conn, &chunks_since_statement(cutoff)) {
        Ok(rows) => rows,
        Err(e) => { return Err(AppError::Database(e)); },
    };
    match chunks_from_rows(&rows) {
        Ok(out) => Ok(out),
        Err(e) => Err(AppError::Database(e)),
    }
}

} // verus!
