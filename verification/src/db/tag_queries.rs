//! The `tag` table and the tags put on todos.

use vstd::prelude::*;
use rusqlite::Connection;
use crate::db::sql::{
    bound, get_int, get_text, int_at, last_insert_rowid, run, run_query, run_query_first, text_at, DbError, ParamSpec,
    SqlStatement, SqlValue,
};
use crate::error::{is_read_failure, is_sqlite_failure, AppError};
use crate::model::Tag;

verus! {

/// Whether `row` (id, name, color) holds `tag`.
pub open spec fn row_holds_tag(row: Seq<SqlValue>, tag: Tag) -> bool {
    &&& int_at(row, 0) == Some(tag.id)
    &&& text_at(row, 1) == Some(tag.name@)
    &&& text_at(row, 2) == Some(tag.color@)
}

pub fn tag_from_row(row: &Vec<SqlValue>) -> (r: Result<Tag, DbError>)
    ensures
        r matches Ok(t) ==> row_holds_tag(row@, t),
        r is Ok <==> row_is_tag(row@),
        r matches Err(e) ==> e is ColumnType,
{
    let id = match get_int(row, 0) { Ok(v) => v, Err(e) => { return Err(e); } };
    let name = match get_text(row, 1) { Ok(v) => v, Err(e) => { return Err(e); } };
    let color = match get_text(row, 2) { Ok(v) => v, Err(e) => { return Err(e); } };
    Ok(Tag { id, name, color })
}

/// Whether every column of `row` (id, name, color) can be read as a tag.
pub open spec fn row_is_tag(row: Seq<SqlValue>) -> bool {
    int_at(row, 0) is Some && text_at(row, 1) is Some && text_at(row, 2) is Some
}

/// Reads every row as a tag; the first unreadable row fails the whole list
/// with `ColumnType`.
fn tags_from_rows(rows: &Vec<Vec<SqlValue>>) -> (r: Result<Vec<Tag>, AppError>)
    ensures
        r matches Ok(ts) ==> ts@.len() == rows@.len()
            && forall|i: int| 0 <= i < rows@.len() ==> row_holds_tag(#[trigger] rows@[i]@, ts@[i]),
        r is Ok <==> forall|i: int| 0 <= i < rows@.len() ==> row_is_tag(#[trigger] rows@[i]@),
        r matches Err(e) ==> e matches AppError::Database(DbError::ColumnType),
{
    let mut out: Vec<Tag> = Vec::new();
    let mut i: usize = 0;
    while i < rows.len()
        invariant
            i <= rows@.len(),
            out@.len() == i,
            forall|k: int| 0 <= k < i ==> row_holds_tag(#[trigger] rows@[k]@, out@[k]),
            forall|k: int| 0 <= k < i ==> row_is_tag(#[trigger] rows@[k]@),
        decreases rows@.len() - i,
    {
        match tag_from_row(&rows[i]) {
            Ok(t) => out.push(t),
            Err(e) => { return Err(AppError::Database(e)); },
        }
        i = i + 1;
    }
    Ok(out)
}

/// The statement of `list`: every tag, by name.
pub fn list_statement() -> (s: SqlStatement)
    ensures
        s.sql@ == "SELECT id, name, color FROM tag ORDER BY name ASC"@,
        bound(s.params@) == Seq::<ParamSpec>::empty(),
{
    SqlStatement::new("SELECT id, name, color FROM tag ORDER BY name ASC")
}

/// The insert of `create`: name, then colour.
pub fn create_statement(name: &str, color: &str) -> (s: SqlStatement)
    ensures
        s.sql@ == "INSERT INTO tag (name, color) VALUES (?1, ?2)"@,
        bound(s.params@) == seq![ParamSpec::Text(name@), ParamSpec::Text(color@)],
{
    SqlStatement::new("INSERT INTO tag (name, color) VALUES (?1, ?2)").text(name).text(color)
}

/// The read-back of `create`: the tag with this id.
pub fn get_statement(id: i64) -> (s: SqlStatement)
    ensures
        s.sql@ == "SELECT id, name, color FROM tag WHERE id = ?1"@,
        bound(s.params@) == seq![ParamSpec::Integer(id)],
{
    SqlStatement::new("SELECT id, name, color FROM tag WHERE id = ?1").integer(id)
}

/// The statement of `delete`.
pub fn delete_statement(id: i64) -> (s: SqlStatement)
    ensures
        s.sql@ == "DELETE FROM tag WHERE id = ?1"@,
        bound(s.params@) == seq![ParamSpec::Integer(id)],
{
    SqlStatement::new("DELETE FROM tag WHERE id = ?1").integer(id)
}

/// The insert of `add_to_todo`: the todo id, then the tag id.
pub fn add_to_todo_statement(todo_id: i64, tag_id: i64) -> (s: SqlStatement)
    ensures
        s.sql@ == "INSERT OR IGNORE INTO todo_tag (todo_id, tag_id) VALUES (?1, ?2)"@,
        bound(s.params@) == seq![ParamSpec::Integer(todo_id), ParamSpec::Integer(tag_id)],
{
    SqlStatement::new("INSERT OR IGNORE INTO todo_tag (todo_id, tag_id) VALUES (?1, ?2)").integer(todo_id).integer(tag_id)
}

/// The delete of `remove_from_todo`: the todo id, then the tag id.
pub fn remove_from_todo_statement(todo_id: i64, tag_id: i64) -> (s: SqlStatement)
    ensures
        s.sql@ == "DELETE FROM todo_tag WHERE todo_id = ?1 AND tag_id = ?2"@,
        bound(s.params@) == seq![ParamSpec::Integer(todo_id), ParamSpec::Integer(tag_id)],
{
    SqlStatement::new("DELETE FROM todo_tag WHERE todo_id = ?1 AND tag_id = ?2").integer(todo_id).integer(tag_id)
}

/// The query of `tags_for_todo`: the tags on this todo, by name.
pub fn tags_for_todo_statement(todo_id: i64) -> (s: SqlStatement)
    ensures
        s.sql@ == "SELECT t.id, t.name, t.color FROM tag t JOIN todo_tag tt ON tt.tag_id = t.id WHERE tt.todo_id = ?1 ORDER BY t.name ASC"@,
        bound(s.params@) == seq![ParamSpec::Integer(todo_id)],
{
    SqlStatement::new("SELECT t.id, t.name, t.color FROM tag t JOIN todo_tag tt ON tt.tag_id = t.id WHERE tt.todo_id = ?1 ORDER BY t.name ASC").integer(todo_id)
}

/// All tags, by name (`list_statement`).
pub fn list(conn: &Connection) -> (r: Result<Vec<Tag>, AppError>)
    ensures
        r matches Err(e) ==> is_read_failure(e),
{
    match run_query(conn, &list_statement()) {
        Ok(rows) => tags_from_rows(&rows),
        Err(e) => Err(AppError::Database(e)),
    }
}

/// Adds a tag (names are unique; `create_statement`), then reads it back by
/// its new rowid (`get_statement`).
pub fn create(conn: &Connection, name: &str, color: &str) -> (r: Result<Tag, AppError>)
    ensures
        r matches Err(e) ==> e is Database,
{
    match run(conn, &create_statement(name, color)) {
        Ok(_) => {},
        Err(e) => { return Err(AppError::Database(e)); },
    }
    match run_query_first(conn, &get_statement(last_insert_rowid(conn))) {
        Ok(row) => match tag_from_row(&row) {
            Ok(t) => Ok(t),
            Err(e) => Err(AppError::Database(e)),
        },
        Err(e) => Err(AppError::Database(e)),
    }
}

/// Deletes a tag (`delete_statement`); the schema removes it from every todo.
pub fn delete(conn: &Connection, id: i64) -> (r: Result<(), AppError>)
    ensures
        r matches Err(e) ==> is_sqlite_failure(e),
{
    match run(conn, &delete_statement(id)) {
        Ok(_) => Ok(()),
        Err(e) => Err(AppError::Database(e)),
    }
}

/// Puts a tag on a todo (`add_to_todo_statement`); nothing happens if it is
/// already there.
pub fn add_to_todo(conn: &Connection, todo_id: i64, tag_id: i64) -> (r: Result<(), AppError>)
    ensures
        r matches Err(e) ==> is_sqlite_failure(e),
{
    match run(conn, &add_to_todo_statement(todo_id, tag_id)) {
        Ok(_) => Ok(()),
        Err(e) => Err(AppError::Database(e)),
    }
}

/// Takes a tag off a todo (`remove_from_todo_statement`).
pub fn remove_from_todo(conn: &Connection, todo_id: i64, tag_id: i64) -> (r: Result<(), AppError>)
    ensures
        r matches Err(e) ==> is_sqlite_failure(e),
{
    match run(conn, &remove_from_todo_statement(todo_id, tag_id)) {
        Ok(_) => Ok(()),
        Err(e) => Err(AppError::Database(e)),
    }
}

/// The tags of a todo, by name (`tags_for_todo_statement`).
pub fn tags_for_todo(conn: &Connection, todo_id: i64) -> (r: Result<Vec<Tag>, AppError>)
    ensures
        r matches Err(e) ==> is_read_failure(e),
{
    match run_query(conn, &tags_for_todo_statement(todo_id)) {
        Ok(rows) => tags_from_rows(&rows),
        Err(e) => Err(AppError::Database(e)),
    }
}

} // verus!
