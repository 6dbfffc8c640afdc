//! App settings as key-value text.

use vstd::prelude::*;
use rusqlite::Connection;
use crate::db::sql::{bound, get_text, run, run_query_first, ParamSpec, SqlStatement};
use crate::error::{is_sqlite_failure, AppError};
use crate::text::str_eq;

verus! {

/// The query of `get`: the value of a key.
pub fn get_statement(key: &str) -> (s: SqlStatement)
    ensures
        s.sql@ == "SELECT value FROM app_setting WHERE key = ?1"@,
        bound(s.params@) == seq![ParamSpec::Text(key@)],
{
    SqlStatement::new("SELECT value FROM app_setting WHERE key = ?1").text(key)
}

/// The upsert of `set`: the key, then the value.
pub fn set_statement(key: &str, value: &str) -> (s: SqlStatement)
    ensures
        s.sql@ == "INSERT INTO app_setting (key, value) VALUES (?1, ?2) ON CONFLICT(key) DO UPDATE SET value = excluded.value"@,
        bound(s.params@) == seq![ParamSpec::Text(key@), ParamSpec::Text(value@)],
{
    SqlStatement::new("INSERT INTO app_setting (key, value) VALUES (?1, ?2) ON CONFLICT(key) DO UPDATE SET value = excluded.value").text(key).text(value)
}

/// The value of a setting; any failure to read it counts as unset.
pub fn get(conn: &Connection, key: &str) -> (r: Result<Option<String>, AppError>)
    ensures
        r is Ok,
{
    match run_query_first(conn, &get_statement(key)) {
        Ok(row) => match get_text(&row, 0) {
            Ok(v) => Ok(Some(v)),
            Err(_) => Ok(None),
        },
        Err(_) => Ok(None),
    }
}

/// Sets a setting, replacing an earlier value.
pub fn set(conn: &Connection, key: &str, value: &str) -> (r: Result<(), AppError>)
    ensures
        r matches Err(e) ==> is_sqlite_failure(e),
{
    match run(conn, &set_statement(key, value)) {
        Ok(_) => Ok(()),
        Err(e) => Err(AppError::Database(e)),
    }
}

/// A stored flag: `"1"` is true, any other text false, no value `default`.
pub open spec fn flag_of(value: Option<Seq<char>>, default: bool) -> bool {
    match value {
        Some(v) => v == "1"@,
        None => default,
    }
}

pub fn flag_value(value: Option<String>, default: bool) -> (b: bool)
    ensures
        b == flag_of(match value { Some(v) => Some(v@), None => None }, default),
{
    match value {
        Some(v) => str_eq(v.as_str(), "1"),
        None => default,
    }
}

/// The text of a flag.
pub fn flag_text(value: bool) -> (s: &'static str)
    ensures
        value ==> s@ == "1"@,
        !value ==> s@ == "0"@,
{
    if value { "1" } else { "0" }
}

/// Reads a setting as a flag; unset means `default`.
pub fn get_bool(conn: &Connection, key: &str, default: bool) -> (r: Result<bool, AppError>)
    ensures
        r is Ok,
{
    match get(conn, key) {
        Ok(v) => Ok(flag_value(v, default)),
        Err(e) => Err(e),
    }
}

pub fn set_bool(conn: &Connection, key: &str, value: bool) -> (r: Result<(), AppError>)
    ensures
        r matches Err(e) ==> is_sqlite_failure(e),
{
    set(conn, key, flag_text(value))
}

/// A flag written and read back is the flag written.
pub proof fn lemma_flag_round_trip(value: bool, default: bool)
    ensures
        flag_of(Some(if value { "1"@ } else { "0"@ }), default) == value,
{
    reveal_strlit("1");
    reveal_strlit("0");
    assert("0"@[0] != "1"@[0]);
}

} // verus!
