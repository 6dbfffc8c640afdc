//! The schema, as migrations applied in order. SQLite's `user_version`
//! counts the migrations already applied.

use vstd::prelude::*;
use rusqlite::Connection;
use crate::db::sql::{bound, execute_batch, get_int, pragma_update, run_query_first, DbError, ParamSpec, SqlStatement};
use crate::error::AppError;

verus! {

pub const MIGRATIONS: [(&'static str, &'static str); 9] = [
    (
        "0001_initial",
        r#"
    CREATE TABLE todo (
        id INTEGER PRIMARY KEY AUTOINCREMENT,
        title TEXT NOT NULL,
        is_completed INTEGER NOT NULL DEFAULT 0,
        pomodoro_count INTEGER NOT NULL DEFAULT 0,
        target_count INTEGER,
        is_active INTEGER NOT NULL DEFAULT 0,
        created_at TEXT NOT NULL DEFAULT (strftime('%Y-%m-%dT%H:%M:%fZ', 'now'))
    );

    CREATE TABLE pomodoro_session (
        id INTEGER PRIMARY KEY AUTOINCREMENT,
        todo_id INTEGER NOT NULL REFERENCES todo(id) ON DELETE CASCADE,
        started_at TEXT NOT NULL,
        completed INTEGER NOT NULL DEFAULT 0
    );
    "#,
    ),
    (
        "0002_add_todo_sort_order",
        r#"
    ALTER TABLE todo ADD COLUMN sort_order INTEGER NOT NULL DEFAULT 0;
    UPDATE todo SET sort_order = id;
    "#,
    ),
    (
        "0003_tags",
        r#"
    CREATE TABLE tag (
        id INTEGER PRIMARY KEY AUTOINCREMENT,
        name TEXT NOT NULL UNIQUE,
        color TEXT NOT NULL DEFAULT '#6366f1'
    );

    CREATE TABLE todo_tag (
        todo_id INTEGER NOT NULL REFERENCES todo(id) ON DELETE CASCADE,
        tag_id  INTEGER NOT NULL REFERENCES tag(id)  ON DELETE CASCADE,
        PRIMARY KEY (todo_id, tag_id)
    );
    "#,
    ),
    (
        "0004_category",
        r#"
    -- category: 'today' | 'tomorrow' | 'this_week' | 'planned' | 'someday' | 'event'
    ALTER TABLE todo ADD COLUMN category TEXT NOT NULL DEFAULT 'someday';
    "#,
    ),
    (
        "0005_timings",
        r#"
    CREATE TABLE timing (
        id INTEGER PRIMARY KEY AUTOINCREMENT,
        key TEXT NOT NULL UNIQUE,
        name TEXT NOT NULL,
        color TEXT NOT NULL DEFAULT '#6366f1',
        sort_order INTEGER NOT NULL DEFAULT 0,
        is_builtin INTEGER NOT NULL DEFAULT 0
    );

    INSERT INTO timing (key, name, color, sort_order, is_builtin) VALUES
        ('today',     'Today',     '#22c55e', 0, 1),
        ('tomorrow',  'Tomorrow',  '#f97316', 1, 1),
        ('this_week', 'This Week', '#8b5cf6', 2, 1),
        ('planned',   'Planned',   '#3b82f6', 3, 1),
        ('someday',   'Someday',   '#a855f7', 4, 1),
        ('event',     'Event',     '#14b8a6', 5, 1);
    "#,
    ),
    (
        "0006_focus_secs",
        r#"
    -- 累積作業時間(秒)。完了に達しなくても一時停止・タスク切替時に加算される。
    ALTER TABLE todo ADD COLUMN focus_secs INTEGER NOT NULL DEFAULT 0;
    "#,
    ),
    (
        "0007_session_duration",
        r#"
    -- 各作業チャンクの長さ(秒)。統計グラフの時間集計に使う。
    ALTER TABLE pomodoro_session ADD COLUMN duration_secs INTEGER NOT NULL DEFAULT 0;
    "#,
    ),
    (
        "0008_analytics",
        r#"
    -- 1ポモドーロ内で発生した中断(一時停止・タスク切替)の回数。
    ALTER TABLE pomodoro_session ADD COLUMN interruption_count INTEGER NOT NULL DEFAULT 0;

    -- 見積もり(target_count)と実績(pomodoro_count)の乖離をタスク完了時に記録する。
    CREATE TABLE estimation_log (
        id INTEGER PRIMARY KEY AUTOINCREMENT,
        todo_id INTEGER NOT NULL REFERENCES todo(id) ON DELETE CASCADE,
        estimated_count INTEGER NOT NULL,
        actual_count INTEGER NOT NULL,
        accuracy_score REAL NOT NULL,
        recorded_at TEXT NOT NULL DEFAULT (strftime('%Y-%m-%dT%H:%M:%fZ', 'now'))
    );
    "#,
    ),
    (
        "0009_app_setting",
        r#"
    -- アプリ設定の汎用key-value(MCPサーバーのON/OFFなど)。
    CREATE TABLE app_setting (
        key TEXT PRIMARY KEY,
        value TEXT NOT NULL
    );
    "#,
    ),
];

/// The index of the first migration to apply when `user_version` is
/// `current`: the version read as a `usize`, so a negative one (which wraps
/// to a huge number) skips them all.
pub open spec fn first_pending(current: int, count: int) -> int {
    if current < 0 || current >= count { count } else { current }
}

/// Where applying starts.
pub fn first_pending_index(current: i64, count: usize) -> (i: usize)
    ensures
        i == first_pending(current as int, count as int),
{
    if current < 0 || current as u64 >= count as u64 {
        count
    } else {
        current as usize
    }
}

/// One step of bringing the schema up to date: a migration's script, and the
/// `user_version` set once it has run.
#[derive(Debug)]
pub struct MigrationStep {
    pub script: &'static str,
    pub version: i64,
}

/// The steps for a database at `user_version` `current`: the migrations from
/// `first_pending(current, 9)` on, in order, each raising the version to its
/// own number.
pub fn migration_plan(current: i64) -> (plan: Vec<MigrationStep>)
    ensures
        plan@.len() == MIGRATIONS@.len() - first_pending(current as int, MIGRATIONS@.len() as int),
        forall|k: int| 0 <= k < plan@.len() ==> {
            let i = first_pending(current as int, MIGRATIONS@.len() as int) + k;
            &&& (#[trigger] plan@[k]).script == MIGRATIONS@[i].1
            &&& plan@[k].version == i + 1
        },
{
    let count = MIGRATIONS.len();
    let first = first_pending_index(current, count);
    let mut plan: Vec<MigrationStep> = Vec::new();
    let mut i = first;
    while i < count
        invariant
            first <= i <= count,
            count == MIGRATIONS@.len(),
            first == first_pending(current as int, count as int),
            plan@.len() == i - first,
            forall|k: int| 0 <= k < plan@.len() ==> {
                let j = first + k;
                &&& (#[trigger] plan@[k]).script == MIGRATIONS@[j].1
                &&& plan@[k].version == j + 1
            },
        decreases count - i,
    {
        let (_name, script) = MIGRATIONS[i];
        plan.push(MigrationStep { script, version: (i + 1) as i64 });
        i = i + 1;
    }
    plan
}

/// The query of `run`: the schema version.
pub fn user_version_statement() -> (s: SqlStatement)
    ensures
        s.sql@ == "PRAGMA user_version"@,
        bound(s.params@) == Seq::<ParamSpec>::empty(),
{
    SqlStatement::new("PRAGMA user_version")
}

/// Applies the steps of `migration_plan` for the current `user_version`
/// (`user_version_statement`), in order: each script, then `user_version`
/// set to the step's version. The first failure stops it.
pub fn run(conn: &Connection) -> (r: Result<(), AppError>)
    ensures
        r matches Err(e) ==> e is Database,
{
    let current = match run_query_first(conn, &user_version_statement()) {
        Ok(row) => match get_int(&row, 0) {
            Ok(v) => v,
            Err(e) => { return Err(AppError::Database(e)); },
        },
        Err(e) => { return Err(AppError::Database(e)); },
    };
    let plan = migration_plan(current);
    let mut k: usize = 0;
    while k < plan.len()
        invariant
            k <= plan@.len(),
        decreases plan@.len() - k,
    {
        match execute_batch(conn, plan[k].script) {
            Ok(()) => {},
            Err(e) => { return Err(AppError::Database(DbError::Sqlite(e))); },
        }
        match pragma_update(conn, "user_version", plan[k].version) {
            Ok(()) => {},
            Err(e) => { return Err(AppError::Database(DbError::Sqlite(e))); },
        }
        k = k + 1;
    }
    Ok(())
}

} // verus!
