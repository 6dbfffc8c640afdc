//! The `todo` table.

use vstd::prelude::*;
use rusqlite::Connection;
use crate::db::sql::{
    bound, first_row, get_flag, get_int, get_opt_int, get_text, int_at, last_insert_rowid, opt_int_at, opt_int_spec, run,
    run_logged, run_query_logged, text_at, DbError, ParamSpec, Sent, SqlStatement, SqlValue,
};
use crate::db::todo_table::{
    add_focus_sql, apply_log, cleared, edited, lemma_clear_then_mark, lemma_edit, lemma_read_table, marked, only_active,
    ran, read, reads_active, reads_as, reads_rows_with_id, reads_table, row_of, rows_of, rows_read, tried, update_sql,
    TodoRow,
};
use crate::error::{is_not_found, is_read_failure, is_sqlite_failure, AppError};
use crate::model::Todo;

verus! {

/// The columns read for a todo, in this order.
pub const SELECT_COLUMNS: &'static str =
    "id, title, is_completed, pomodoro_count, target_count, is_active, created_at, category, focus_secs";

/// Whether `row` (in `SELECT_COLUMNS` order) holds `todo`.
pub open spec fn row_holds_todo(row: Seq<SqlValue>, todo: Todo) -> bool {
    &&& int_at(row, 0) == Some(todo.id)
    &&& text_at(row, 1) == Some(todo.title@)
    &&& int_at(row, 2) matches Some(c) && todo.is_completed == (c != 0)
    &&& int_at(row, 3) == Some(todo.pomodoro_count)
    &&& opt_int_at(row, 4) == Some(todo.target_count)
    &&& int_at(row, 5) matches Some(a) && todo.is_active == (a != 0)
    &&& text_at(row, 6) == Some(todo.created_at@)
    &&& text_at(row, 7) == Some(todo.category@)
    &&& int_at(row, 8) == Some(todo.focus_secs)
}

/// Whether every column of `row` can be read as a todo.
pub open spec fn row_is_todo(row: Seq<SqlValue>) -> bool {
    &&& int_at(row, 0) is Some && text_at(row, 1) is Some && int_at(row, 2) is Some
    &&& int_at(row, 3) is Some && opt_int_at(row, 4) is Some && int_at(row, 5) is Some
    &&& text_at(row, 6) is Some && text_at(row, 7) is Some && int_at(row, 8) is Some
}

/// Reads a todo from a row in `SELECT_COLUMNS` order.
pub fn todo_from_row(row: &Vec<SqlValue>) -> (r: Result<Todo, DbError>)
    ensures
        r matches Ok(t) ==> row_holds_todo(row@, t),
        r is Ok <==> row_is_todo(row@),
        r matches Err(e) ==> e is ColumnType,
{
    let id = match get_int(row, 0) { Ok(v) => v, Err(e) => { return Err(e); } };
    let title = match get_text(row, 1) { Ok(v) => v, Err(e) => { return Err(e); } };
    let is_completed = match get_flag(row, 2) { Ok(v) => v, Err(e) => { return Err(e); } };
    let pomodoro_count = match get_int(row, 3) { Ok(v) => v, Err(e) => { return Err(e); } };
    let target_count = match get_opt_int(row, 4) { Ok(v) => v, Err(e) => { return Err(e); } };
    let is_active = match get_flag(row, 5) { Ok(v) => v, Err(e) => { return Err(e); } };
    let created_at = match get_text(row, 6) { Ok(v) => v, Err(e) => { return Err(e); } };
    let category = match get_text(row, 7) { Ok(v) => v, Err(e) => { return Err(e); } };
    let focus_secs = match get_int(row, 8) { Ok(v) => v, Err(e) => { return Err(e); } };
    Ok(Todo { id, title, is_completed, pomodoro_count, target_count, is_active, created_at, category, focus_secs })
}

/// Reads every row as a todo; the first unreadable row fails the whole list.
pub fn todos_from_rows(rows: &Vec<Vec<SqlValue>>) -> (r: Result<Vec<Todo>, DbError>)
    ensures
        r matches Ok(ts) ==> ts@.len() == rows@.len()
            && forall|i: int| 0 <= i < rows@.len() ==> row_holds_todo(#[trigger] rows@[i]@, ts@[i]),
        r is Ok <==> forall|i: int| 0 <= i < rows@.len() ==> row_is_todo(#[trigger] rows@[i]@),
        r matches Err(e) ==> e is ColumnType,
{
    let mut out: Vec<Todo> = Vec::new();
    let mut i: usize = 0;
    while i < rows.len()
        invariant
            i <= rows@.len(),
            out@.len() == i,
            forall|k: int| 0 <= k < i ==> row_holds_todo(#[trigger] rows@[k]@, out@[k]),
            forall|k: int| 0 <= k < i ==> row_is_todo(#[trigger] rows@[k]@),
        decreases rows@.len() - i,
    {
        match todo_from_row(&rows[i]) {
            Ok(t) => out.push(t),
            Err(e) => { return Err(e); },
        }
        i = i + 1;
    }
    Ok(out)
}

/// Fails with `TodoNotFound(id)` when a statement changed no row.
pub fn require_changed(affected: usize, id: i64) -> (r: Result<(), AppError>)
    ensures
        r is Ok <==> affected != 0,
        r matches Err(e) ==> e matches AppError::TodoNotFound(x) && x == id,
{
    if affected == 0 {
        Err(AppError::TodoNotFound(id))
    } else {
        Ok(())
    }
}

/// The error of a lookup by id: no row means `TodoNotFound(id)`.
pub fn lookup_error(e: DbError, id: i64) -> (r: AppError)
    ensures
        e is NoRows ==> (r matches AppError::TodoNotFound(x) && x == id),
        !(e is NoRows) ==> r == AppError::Database(e),
{
    match e {
        DbError::NoRows => AppError::TodoNotFound(id),
        other => AppError::Database(other),
    }
}

/// `SELECT <columns> FROM todo <tail>`.
fn select_todos(tail: &str) -> (s: String)
    ensures
        s@ == "SELECT "@ + SELECT_COLUMNS@ + tail@,
{
    let mut sql = String::from_str("SELECT ");
    sql.append(SELECT_COLUMNS);
    sql.append(tail);
    sql
}

/// The statement of `list`: every todo, oldest first.
pub fn list_statement() -> (s: SqlStatement)
    ensures
        s.sql@ == "SELECT "@ + SELECT_COLUMNS@ + " FROM todo ORDER BY created_at ASC"@,
        bound(s.params@) == Seq::<ParamSpec>::empty(),
{
    SqlStatement::of_text(select_todos(" FROM todo ORDER BY created_at ASC"))
}

/// The statement of `get`: the todo with this id.
pub fn get_statement(id: i64) -> (s: SqlStatement)
    ensures
        s.sql@ == "SELECT "@ + SELECT_COLUMNS@ + " FROM todo WHERE id = ?1"@,
        bound(s.params@) == seq![ParamSpec::Integer(id)],
{
    SqlStatement::of_text(select_todos(" FROM todo WHERE id = ?1")).integer(id)
}

/// The statement of `get_active`: the first todo marked active.
pub fn get_active_statement() -> (s: SqlStatement)
    ensures
        s.sql@ == "SELECT "@ + SELECT_COLUMNS@ + " FROM todo WHERE is_active = 1 LIMIT 1"@,
        bound(s.params@) == Seq::<ParamSpec>::empty(),
{
    SqlStatement::of_text(select_todos(" FROM todo WHERE is_active = 1 LIMIT 1"))
}

/// The insert of `create`: the title and the estimate (`NULL` for none).
pub fn create_statement(title: &str, target_count: Option<i64>) -> (s: SqlStatement)
    ensures
        s.sql@ == "INSERT INTO todo (title, target_count) VALUES (?1, ?2)"@,
        bound(s.params@) == seq![ParamSpec::Text(title@), opt_int_spec(target_count)],
{
    SqlStatement::new("INSERT INTO todo (title, target_count) VALUES (?1, ?2)").text(title).opt_int(target_count)
}

/// The update of `update`: title, estimate, then the id.
pub fn update_statement(id: i64, title: &str, target_count: Option<i64>) -> (s: SqlStatement)
    ensures
        s.sql@ == "UPDATE todo SET title = ?1, target_count = ?2 WHERE id = ?3"@,
        bound(s.params@) == seq![ParamSpec::Text(title@), opt_int_spec(target_count), ParamSpec::Integer(id)],
{
    SqlStatement::new("UPDATE todo SET title = ?1, target_count = ?2 WHERE id = ?3").text(title).opt_int(target_count).integer(id)
}

/// The statement of `delete`.
pub fn delete_statement(id: i64) -> (s: SqlStatement)
    ensures
        s.sql@ == "DELETE FROM todo WHERE id = ?1"@,
        bound(s.params@) == seq![ParamSpec::Integer(id)],
{
    SqlStatement::new("DELETE FROM todo WHERE id = ?1").integer(id)
}

/// The update of `toggle_complete`: the flag flips.
pub fn toggle_complete_statement(id: i64) -> (s: SqlStatement)
    ensures
        s.sql@ == "UPDATE todo SET is_completed = NOT is_completed WHERE id = ?1"@,
        bound(s.params@) == seq![ParamSpec::Integer(id)],
{
    SqlStatement::new("UPDATE todo SET is_completed = NOT is_completed WHERE id = ?1").integer(id)
}

/// The first update of `set_active`: no todo is active.
pub fn clear_active_statement() -> (s: SqlStatement)
    ensures
        s.sql@ == "UPDATE todo SET is_active = 0"@,
        bound(s.params@) == Seq::<ParamSpec>::empty(),
{
    SqlStatement::new("UPDATE todo SET is_active = 0")
}

/// The second update of `set_active`: this todo is active.
pub fn mark_active_statement(id: i64) -> (s: SqlStatement)
    ensures
        s.sql@ == "UPDATE todo SET is_active = 1 WHERE id = ?1"@,
        bound(s.params@) == seq![ParamSpec::Integer(id)],
{
    SqlStatement::new("UPDATE todo SET is_active = 1 WHERE id = ?1").integer(id)
}

/// The update of `increment_pomodoro_count`.
pub fn increment_pomodoro_count_statement(id: i64) -> (s: SqlStatement)
    ensures
        s.sql@ == "UPDATE todo SET pomodoro_count = pomodoro_count + 1 WHERE id = ?1"@,
        bound(s.params@) == seq![ParamSpec::Integer(id)],
{
    SqlStatement::new("UPDATE todo SET pomodoro_count = pomodoro_count + 1 WHERE id = ?1").integer(id)
}

/// The update of `update_category`: the timing key, then the id.
pub fn update_category_statement(id: i64, category: &str) -> (s: SqlStatement)
    ensures
        s.sql@ == "UPDATE todo SET category = ?1 WHERE id = ?2"@,
        bound(s.params@) == seq![ParamSpec::Text(category@), ParamSpec::Integer(id)],
{
    SqlStatement::new("UPDATE todo SET category = ?1 WHERE id = ?2").text(category).integer(id)
}

/// The update of `add_focus_secs`: the seconds, then the id.
pub fn add_focus_secs_statement(id: i64, secs: i64) -> (s: SqlStatement)
    ensures
        s.sql@ == "UPDATE todo SET focus_secs = focus_secs + ?1 WHERE id = ?2"@,
        bound(s.params@) == seq![ParamSpec::Integer(secs), ParamSpec::Integer(id)],
{
    SqlStatement::new("UPDATE todo SET focus_secs = focus_secs + ?1 WHERE id = ?2").integer(secs).integer(id)
}

/// The SQL of `list_statement`.
pub open spec fn list_sql() -> Seq<char> {
    "SELECT "@ + SELECT_COLUMNS@ + " FROM todo ORDER BY created_at ASC"@
}

/// The SQL of `get_statement`.
pub open spec fn get_sql() -> Seq<char> {
    "SELECT "@ + SELECT_COLUMNS@ + " FROM todo WHERE id = ?1"@
}

/// `list`, with the query it sent: every row the query gave is read, in
/// order, so where the query gave the whole table the todos are its rows.
pub fn list_logged(conn: &Connection) -> (r: (Result<Vec<Todo>, AppError>, Ghost<Sent>))
    ensures
        r.0 matches Err(e) ==> is_read_failure(e),
        r.0 matches Ok(ts) ==> read(r.1@, list_sql(), Seq::empty())
            && ts@.len() == rows_read(r.1@).len()
            && forall|i: int| 0 <= i < ts@.len() ==> row_holds_todo(#[trigger] rows_read(r.1@)[i], ts@[i]),
        r.0 matches Ok(ts) ==> forall|table: Seq<TodoRow>|
            #[trigger] reads_table(rows_read(r.1@), table) ==> rows_of(ts@) == table,
{
    let (q, Ghost(sent)) = run_query_logged(conn, &list_statement());
    match q {
        Ok(rows) => match todos_from_rows(&rows) {
            Ok(ts) => {
                proof {
                    assert forall|i: int| 0 <= i < ts@.len() implies row_holds_todo(#[trigger] rows_read(sent)[i], ts@[i]) by {
                        assert(rows_read(sent)[i] == rows@[i]@);
                    }
                    assert forall|table: Seq<TodoRow>| #[trigger] reads_table(rows_read(sent), table) implies rows_of(ts@) == table by {
                        lemma_read_table(rows_read(sent), table, ts@);
                    }
                }
                (Ok(ts), Ghost(sent))
            },
            Err(e) => (Err(AppError::Database(e)), Ghost(sent)),
        },
        Err(e) => (Err(AppError::Database(e)), Ghost(sent)),
    }
}

/// All todos, oldest first (`list_statement`); `list_logged` states how
/// they relate to the rows the query gave.
pub fn list(conn: &Connection) -> (r: Result<Vec<Todo>, AppError>)
    ensures
        r matches Err(e) ==> is_read_failure(e),
{
    list_logged(conn).0
}

/// `get`, with the query it sent: the todo is read from the first row it gave.
pub fn get_logged(conn: &Connection, id: i64) -> (r: (Result<Todo, AppError>, Ghost<Sent>))
    ensures
        r.0 matches Err(e) ==> is_not_found(e, id) || is_read_failure(e),
        r.0 matches Ok(t) ==> read(r.1@, get_sql(), seq![ParamSpec::Integer(id)])
            && rows_read(r.1@).len() > 0 && row_holds_todo(rows_read(r.1@)[0], t),
{
    let (q, Ghost(sent)) = run_query_logged(conn, &get_statement(id));
    match q {
        Ok(rows) => {
            let ghost seen = rows@;
            match first_row(rows) {
                Ok(row) => {
                    assert(rows_read(sent)[0] == row@);
                    match todo_from_row(&row) {
                        Ok(t) => (Ok(t), Ghost(sent)),
                        Err(e) => (Err(AppError::Database(e)), Ghost(sent)),
                    }
                },
                Err(e) => (Err(lookup_error(e, id)), Ghost(sent)),
            }
        },
        Err(e) => (Err(lookup_error(e, id)), Ghost(sent)),
    }
}

/// The todo with this id (`get_statement`); `TodoNotFound(id)` if there is none.
pub fn get(conn: &Connection, id: i64) -> (r: Result<Todo, AppError>)
    ensures
        r matches Err(e) ==> is_not_found(e, id) || is_read_failure(e),
{
    get_logged(conn, id).0
}

/// Adds a todo with a title and an optional pomodoro estimate
/// (`create_statement`), then reads it back by its new rowid.
pub fn create(conn: &Connection, title: &str, target_count: Option<i64>) -> (r: Result<Todo, AppError>)
    ensures
        r matches Err(e) ==> e is TodoNotFound || is_read_failure(e),
{
    match run(conn, &create_statement(title, target_count)) {
        Ok(_) => get(conn, last_insert_rowid(conn)),
        Err(e) => Err(AppError::Database(e)),
    }
}

/// Runs a statement that targets one todo, and gives what was sent;
/// `TodoNotFound(id)` if it changed no row.
fn change_one_logged(conn: &Connection, st: &SqlStatement, id: i64) -> (r: (Result<(), AppError>, Ghost<Sent>))
    ensures
        r.0 matches Err(e) ==> is_not_found(e, id) || is_sqlite_failure(e),
        tried(r.1@, st.sql@, bound(st.params@)),
        r.0 is Ok ==> ran(r.1@, st.sql@, bound(st.params@)),
{
    let (res, Ghost(sent)) = run_logged(conn, st);
    match res {
        Ok(affected) => (require_changed(affected, id), Ghost(sent)),
        Err(e) => (Err(AppError::Database(e)), Ghost(sent)),
    }
}

/// Runs a statement that targets one todo; `TodoNotFound(id)` if it changed no row.
fn change_one(conn: &Connection, st: &SqlStatement, id: i64) -> (r: Result<(), AppError>)
    ensures
        r matches Err(e) ==> is_not_found(e, id) || is_sqlite_failure(e),
{
    change_one_logged(conn, st, id).0
}

/// `update`, with what it sent: the edit, then the read of the todo. Where
/// that read gives the todo as the table holds it after the edit, the todo
/// returned has exactly the given title and estimate (`None` clears it).
pub fn update_logged(conn: &Connection, id: i64, title: &str, target_count: Option<i64>)
    -> (r: (Result<Todo, AppError>, Ghost<Seq<Sent>>))
    ensures
        r.0 matches Err(e) ==> is_not_found(e, id) || is_read_failure(e),
        r.0 is Ok ==> r.1@.len() == 2
            && ran(r.1@[0], update_sql(), seq![ParamSpec::Text(title@), opt_int_spec(target_count), ParamSpec::Integer(id)])
            && read(r.1@[1], get_sql(), seq![ParamSpec::Integer(id)]),
        r.0 matches Ok(t) ==> forall|table: Seq<TodoRow>| #[trigger] apply_log(table, r.1@) is Some
            && (reads_rows_with_id(rows_read(r.1@[1]), apply_log(table, r.1@)->0, id)
                ==> t.title@ == title@ && t.target_count == target_count),
{
    let (changed, Ghost(edit)) = change_one_logged(conn, &update_statement(id, title, target_count), id);
    match changed {
        Ok(()) => {
            let (got, Ghost(back)) = get_logged(conn, id);
            match got {
                Ok(t) => {
                    let ghost log = seq![edit, back];
                    proof {
                        assert(log.drop_last() =~= seq![edit]);
                        assert(seq![edit].drop_last() =~= Seq::<Sent>::empty());
                        assert forall|table: Seq<TodoRow>| #[trigger] apply_log(table, log) is Some
                            && (reads_rows_with_id(rows_read(log[1]), apply_log(table, log)->0, id)
                                ==> t.title@ == title@ && t.target_count == target_count) by {
                            lemma_edit(table, id, title@, target_count);
                            assert(apply_log(table, Seq::<Sent>::empty()) == Some(table));
                            assert(apply_log(table, seq![edit]) == Some(edited(table, id, title@, target_count)));
                            assert(apply_log(table, log) == Some(edited(table, id, title@, target_count)));
                            let after = edited(table, id, title@, target_count);
                            if reads_rows_with_id(rows_read(log[1]), after, id) {
                                let row = rows_read(log[1])[0];
                                let i = choose|i: int| 0 <= i < after.len() && after[i].id == id && reads_as(row, after[i]);
                                assert(after[i] == edited(table, id, title@, target_count)[i]);
                            }
                        }
                    }
                    (Ok(t), Ghost(log))
                },
                Err(e) => {
                    let ghost log = seq![edit, back];
                    (Err(e), Ghost(log))
                },
            }
        },
        Err(e) => {
            let ghost log = seq![edit];
            (Err(e), Ghost(log))
        },
    }
}

/// Changes a todo's title and estimate (`update_statement`), then reads it
/// back; `update_logged` states what the edit does to the table.
pub fn update(conn: &Connection, id: i64, title: &str, target_count: Option<i64>) -> (r: Result<Todo, AppError>)
    ensures
        r matches Err(e) ==> is_not_found(e, id) || is_read_failure(e),
{
    update_logged(conn, id, title, target_count).0
}

/// Deletes a todo (`delete_statement`).
pub fn delete(conn: &Connection, id: i64) -> (r: Result<(), AppError>)
    ensures
        r matches Err(e) ==> is_not_found(e, id) || is_sqlite_failure(e),
{
    change_one(conn, &delete_statement(id), id)
}

/// Flips whether the todo is completed (`toggle_complete_statement`), then reads it back.
pub fn toggle_complete(conn: &Connection, id: i64) -> (r: Result<Todo, AppError>)
    ensures
        r matches Err(e) ==> is_not_found(e, id) || is_read_failure(e),
{
    match change_one(conn, &toggle_complete_statement(id), id) {
        Ok(()) => get(conn, id),
        Err(e) => Err(e),
    }
}

/// Makes `id` the one todo being worked on (none for `None`): every todo is
/// cleared first (`clear_active_statement`), so at most one is active, then
/// the todo is marked (`mark_active_statement`). `set_active_logged` states
/// what these statements do to the table.
pub fn set_active(conn: &Connection, id: Option<i64>) -> (r: Result<(), AppError>)
    ensures
        r matches Err(e) ==> (id matches Some(x) && is_not_found(e, x)) || is_sqlite_failure(e),
{
    set_active_logged(conn, id).0
}

/// `set_active`, with what it sent. When it succeeds, the statements it sent
/// leave, in every todo table, exactly the todo `id` active (none for `None`).
pub fn set_active_logged(conn: &Connection, id: Option<i64>) -> (r: (Result<(), AppError>, Ghost<Seq<Sent>>))
    ensures
        r.0 matches Err(e) ==> (id matches Some(x) && is_not_found(e, x)) || is_sqlite_failure(e),
        r.0 is Ok ==> forall|table: Seq<TodoRow>| #[trigger] apply_log(table, r.1@) is Some
            && only_active(apply_log(table, r.1@)->0, id),
{
    let (cleared_all, Ghost(clear)) = run_logged(conn, &clear_active_statement());
    let ghost first = seq![clear];
    match cleared_all {
        Ok(_) => {},
        Err(e) => { return (Err(AppError::Database(e)), Ghost(first)); },
    }
    proof {
        assert(seq![clear].drop_last() =~= Seq::<Sent>::empty());
    }
    match id {
        Some(x) => {
            let (res, Ghost(mark)) = change_one_logged(conn, &mark_active_statement(x), x);
            let ghost log = seq![clear, mark];
            proof {
                assert(log.drop_last() =~= seq![clear]);
                assert forall|table: Seq<TodoRow>| res is Ok implies #[trigger] apply_log(table, log) is Some
                    && only_active(apply_log(table, log)->0, id) by {
                    lemma_clear_then_mark(table, x);
                    assert(apply_log(table, Seq::<Sent>::empty()) == Some(table));
                    assert(apply_log(table, seq![clear]) == Some(cleared(table)));
                    assert(apply_log(table, log) == Some(marked(cleared(table), x)));
                }
            }
            (res, Ghost(log))
        },
        None => {
            proof {
                assert forall|table: Seq<TodoRow>| #[trigger] apply_log(table, first) is Some
                    && only_active(apply_log(table, first)->0, id) by {
                    lemma_clear_then_mark(table, 0);
                    assert(apply_log(table, Seq::<Sent>::empty()) == Some(table));
                }
            }
            (Ok(()), Ghost(first))
        },
    }
}

/// Counts one more completed pomodoro for the todo
/// (`increment_pomodoro_count_statement`), then reads it back.
pub fn increment_pomodoro_count(conn: &Connection, id: i64) -> (r: Result<Todo, AppError>)
    ensures
        r matches Err(e) ==> is_not_found(e, id) || is_read_failure(e),
{
    match change_one(conn, &increment_pomodoro_count_statement(id), id) {
        Ok(()) => get(conn, id),
        Err(e) => Err(e),
    }
}

/// Moves the todo to another timing (`update_category_statement`), then reads it back.
pub fn update_category(conn: &Connection, id: i64, category: &str) -> (r: Result<Todo, AppError>)
    ensures
        r matches Err(e) ==> is_not_found(e, id) || is_read_failure(e),
{
    match change_one(conn, &update_category_statement(id, category), id) {
        Ok(()) => get(conn, id),
        Err(e) => Err(e),
    }
}

/// Adds work seconds to the todo's accumulated focus time (`add_focus_secs_statement`).
pub fn add_focus_secs(conn: &Connection, id: i64, secs: i64) -> (r: Result<(), AppError>)
    ensures
        r matches Err(e) ==> is_not_found(e, id) || is_sqlite_failure(e),
{
    add_focus_secs_logged(conn, id, secs).0
}

/// `add_focus_secs`, with the statement it sent (whether it ran or failed).
pub fn add_focus_secs_logged(conn: &Connection, id: i64, secs: i64) -> (r: (Result<(), AppError>, Ghost<Sent>))
    ensures
        r.0 matches Err(e) ==> is_not_found(e, id) || is_sqlite_failure(e),
        tried(r.1@, add_focus_sql(), seq![ParamSpec::Integer(secs), ParamSpec::Integer(id)]),
        r.0 is Ok ==> ran(r.1@, add_focus_sql(), seq![ParamSpec::Integer(secs), ParamSpec::Integer(id)]),
{
    change_one_logged(conn, &add_focus_secs_statement(id, secs), id)
}

/// The todo being worked on, if any (`get_active_statement`); see
/// `get_active_logged`.
pub fn get_active(conn: &Connection) -> (r: Result<Option<Todo>, AppError>)
    ensures
        r matches Err(e) ==> is_read_failure(e),
{
    get_active_logged(conn).0
}

/// The SQL of `get_active_statement`.
pub open spec fn get_active_sql() -> Seq<char> {
    "SELECT "@ + SELECT_COLUMNS@ + " FROM todo WHERE is_active = 1 LIMIT 1"@
}

/// `get_active`, with the query it sent: none exactly when the query gave no
/// row, else the todo of its first row. Where that query read the active
/// rows of a table, the todo is one of them, and none means no todo of the
/// table is active.
pub fn get_active_logged(conn: &Connection) -> (r: (Result<Option<Todo>, AppError>, Ghost<Sent>))
    ensures
        r.0 matches Err(e) ==> is_read_failure(e),
        r.0 is Ok ==> read(r.1@, get_active_sql(), Seq::empty()),
        r.0 matches Ok(None) ==> rows_read(r.1@).len() == 0,
        r.0 matches Ok(Some(t)) ==> rows_read(r.1@).len() > 0 && row_holds_todo(rows_read(r.1@)[0], t),
        r.0 matches Ok(v) ==> forall|table: Seq<TodoRow>| #[trigger] reads_active(rows_read(r.1@), table) ==> {
            &&& v matches Some(t) ==> exists|i: int| 0 <= i < table.len() && table[i].is_active && row_of(t) == #[trigger] table[i]
            &&& v is None ==> forall|i: int| 0 <= i < table.len() ==> !(#[trigger] table[i].is_active)
        },
{
    let (q, Ghost(sent)) = run_query_logged(conn, &get_active_statement());
    match q {
        Ok(rows) => {
            if rows.len() == 0 {
                proof {
                    assert forall|table: Seq<TodoRow>| #[trigger] reads_active(rows_read(sent), table)
                        implies forall|i: int| 0 <= i < table.len() ==> !(#[trigger] table[i].is_active) by {
                        if exists|i: int| 0 <= i < table.len() && #[trigger] table[i].is_active {
                            assert(rows_read(sent).len() > 0);
                        }
                    }
                }
                (Ok(None), Ghost(sent))
            } else {
                match first_row(rows) {
                    Ok(row) => {
                        assert(rows_read(sent)[0] == row@);
                        match todo_from_row(&row) {
                            Ok(t) => {
                                proof {
                                    assert forall|table: Seq<TodoRow>| #[trigger] reads_active(rows_read(sent), table)
                                        implies exists|i: int| 0 <= i < table.len() && table[i].is_active
                                            && row_of(t) == #[trigger] table[i] by {
                                        let i = choose|i: int| 0 <= i < table.len() && table[i].is_active
                                            && reads_as(rows_read(sent)[0], table[i]);
                                        crate::db::todo_table::lemma_read_back(rows_read(sent)[0], table[i], t);
                                    }
                                }
                                (Ok(Some(t)), Ghost(sent))
                            },
                            Err(e) => (Err(AppError::Database(e)), Ghost(sent)),
                        }
                    },
                    Err(e) => (Err(AppError::Database(e)), Ghost(sent)),
                }
            }
        },
        Err(e) => (Err(AppError::Database(e)), Ghost(sent)),
    }
}

} // verus!
