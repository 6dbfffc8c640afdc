use cycl::db::timing_queries::timings_from_rows;
use cycl::db::session_queries::{chunks_from_rows, sessions_from_rows};
use cycl::db::analytics_queries::session_rows_from;
use cycl::db::sql::{first_row, DbError, Param, SqlValue};
use cycl::db::{migrations, session_queries, setting_queries, tag_queries, timing_queries, todo_queries};
use cycl::error::AppError;
use cycl::model::DEFAULT_TIMING;
use rusqlite::Connection;

fn setup_conn() -> Connection {
    let conn = Connection::open_in_memory().unwrap();
    migrations::run(&conn).unwrap();
    conn
}

#[test]
fn create_and_get_todo() {
    let conn = setup_conn();
    let todo = todo_queries::create(&conn, "牛乳を買う", Some(4)).unwrap();
    assert_eq!(todo.title, "牛乳を買う");
    assert_eq!(todo.target_count, Some(4));
    assert!(!todo.is_completed);

    let fetched = todo_queries::get(&conn, todo.id).unwrap();
    assert_eq!(fetched.id, todo.id);
}

#[test]
fn get_missing_todo_returns_not_found() {
    let conn = setup_conn();
    let err = todo_queries::get(&conn, 999).unwrap_err();
    assert!(matches!(err, AppError::TodoNotFound(999)));
}

#[test]
fn toggle_complete_flips_state() {
    let conn = setup_conn();
    let todo = todo_queries::create(&conn, "掃除", None).unwrap();
    let toggled = todo_queries::toggle_complete(&conn, todo.id).unwrap();
    assert!(toggled.is_completed);
    let toggled_again = todo_queries::toggle_complete(&conn, todo.id).unwrap();
    assert!(!toggled_again.is_completed);
}

#[test]
fn set_active_only_allows_one_at_a_time() {
    let conn = setup_conn();
    let a = todo_queries::create(&conn, "A", None).unwrap();
    let b = todo_queries::create(&conn, "B", None).unwrap();

    todo_queries::set_active(&conn, Some(a.id)).unwrap();
    todo_queries::set_active(&conn, Some(b.id)).unwrap();

    let a_after = todo_queries::get(&conn, a.id).unwrap();
    let b_after = todo_queries::get(&conn, b.id).unwrap();
    assert!(!a_after.is_active);
    assert!(b_after.is_active);
}

#[test]
fn increment_pomodoro_count_increases_by_one() {
    let conn = setup_conn();
    let todo = todo_queries::create(&conn, "作業", None).unwrap();
    let updated = todo_queries::increment_pomodoro_count(&conn, todo.id).unwrap();
    assert_eq!(updated.pomodoro_count, 1);
}

#[test]
fn changes_to_missing_todos_report_not_found() {
    let conn = setup_conn();
    assert!(matches!(todo_queries::update(&conn, 5, "x", None), Err(AppError::TodoNotFound(5))));
    assert!(matches!(todo_queries::delete(&conn, 6), Err(AppError::TodoNotFound(6))));
    assert!(matches!(todo_queries::set_active(&conn, Some(7)), Err(AppError::TodoNotFound(7))));
    assert!(todo_queries::set_active(&conn, None).is_ok());
}

#[test]
fn active_todo_and_focus_time() {
    let conn = setup_conn();
    assert!(todo_queries::get_active(&conn).unwrap().is_none());
    let a = todo_queries::create(&conn, "A", None).unwrap();
    assert_eq!(a.category, DEFAULT_TIMING);
    todo_queries::set_active(&conn, Some(a.id)).unwrap();
    assert_eq!(todo_queries::get_active(&conn).unwrap().map(|t| t.id), Some(a.id));
    todo_queries::add_focus_secs(&conn, a.id, 90).unwrap();
    todo_queries::add_focus_secs(&conn, a.id, 10).unwrap();
    assert_eq!(todo_queries::get(&conn, a.id).unwrap().focus_secs, 100);
    let updated = todo_queries::update(&conn, a.id, "A2", Some(2)).unwrap();
    assert_eq!(updated.title, "A2");
    assert_eq!(updated.target_count, Some(2));
    assert_eq!(todo_queries::list(&conn).unwrap().len(), 1);
    todo_queries::delete(&conn, a.id).unwrap();
    assert!(todo_queries::list(&conn).unwrap().is_empty());
}

#[test]
fn create_and_list_tags() {
    let conn = setup_conn();
    tag_queries::create(&conn, "work", "#ff0000").unwrap();
    tag_queries::create(&conn, "home", "#00ff00").unwrap();
    let tags = tag_queries::list(&conn).unwrap();
    assert_eq!(tags.len(), 2);
    assert_eq!(tags[0].name, "home");
}

#[test]
fn add_and_remove_tag_on_todo() {
    let conn = setup_conn();
    let todo = todo_queries::create(&conn, "作業", None).unwrap();
    let tag = tag_queries::create(&conn, "urgent", "#ff0000").unwrap();

    tag_queries::add_to_todo(&conn, todo.id, tag.id).unwrap();
    assert_eq!(tag_queries::tags_for_todo(&conn, todo.id).unwrap().len(), 1);

    tag_queries::add_to_todo(&conn, todo.id, tag.id).unwrap();
    assert_eq!(tag_queries::tags_for_todo(&conn, todo.id).unwrap().len(), 1);

    tag_queries::remove_from_todo(&conn, todo.id, tag.id).unwrap();
    assert!(tag_queries::tags_for_todo(&conn, todo.id).unwrap().is_empty());
}

#[test]
fn deleting_tag_removes_it_from_todos() {
    let conn = setup_conn();
    let todo = todo_queries::create(&conn, "作業", None).unwrap();
    let tag = tag_queries::create(&conn, "temp", "#123456").unwrap();
    tag_queries::add_to_todo(&conn, todo.id, tag.id).unwrap();

    tag_queries::delete(&conn, tag.id).unwrap();

    assert!(tag_queries::list(&conn).unwrap().is_empty());
    assert!(tag_queries::tags_for_todo(&conn, todo.id).unwrap().is_empty());
}

#[test]
fn list_returns_seeded_builtins() {
    let conn = setup_conn();
    let timings = timing_queries::list(&conn).unwrap();
    assert_eq!(timings.len(), 6);
    assert_eq!(timings[0].key, "today");
    assert!(timings.iter().all(|t| t.is_builtin));
}

#[test]
fn create_adds_a_custom_timing() {
    let conn = setup_conn();
    let timing = timing_queries::create(&conn, "Weekend", "#ff0000").unwrap();
    assert_eq!(timing.key, "Weekend");
    assert!(!timing.is_builtin);
    assert_eq!(timing_queries::list(&conn).unwrap().len(), 7);
}

#[test]
fn deleting_custom_timing_reassigns_todos_to_default() {
    let conn = setup_conn();
    let timing = timing_queries::create(&conn, "Weekend", "#ff0000").unwrap();
    let todo = todo_queries::create(&conn, "作業", None).unwrap();
    todo_queries::update_category(&conn, todo.id, &timing.key).unwrap();

    timing_queries::delete(&conn, timing.id).unwrap();

    assert_eq!(timing_queries::list(&conn).unwrap().len(), 6);
    let moved = todo_queries::get(&conn, todo.id).unwrap();
    assert_eq!(moved.category, DEFAULT_TIMING);
}

#[test]
fn builtin_timing_is_not_deleted() {
    let conn = setup_conn();
    let today = timing_queries::list(&conn)
        .unwrap()
        .into_iter()
        .find(|t| t.key == "today")
        .unwrap();
    timing_queries::delete(&conn, today.id).unwrap();
    assert_eq!(timing_queries::list(&conn).unwrap().len(), 6);
    // an unknown id is no error either
    timing_queries::delete(&conn, 12345).unwrap();
}

#[test]
fn create_and_complete_session() {
    let conn = setup_conn();
    let todo = todo_queries::create(&conn, "作業", None).unwrap();

    let session = session_queries::create(&conn, todo.id, "2026-07-04T10:00:00.000Z").unwrap();
    assert!(!session.completed);

    let completed = session_queries::complete(&conn, session.id).unwrap();
    assert!(completed.completed);
}

#[test]
fn list_by_todo_returns_only_matching_sessions() {
    let conn = setup_conn();
    let todo_a = todo_queries::create(&conn, "A", None).unwrap();
    let todo_b = todo_queries::create(&conn, "B", None).unwrap();

    session_queries::create(&conn, todo_a.id, "2026-07-04T10:00:00.000Z").unwrap();
    session_queries::create(&conn, todo_a.id, "2026-07-04T10:30:00.000Z").unwrap();
    session_queries::create(&conn, todo_b.id, "2026-07-04T11:00:00.000Z").unwrap();

    let sessions = session_queries::list_by_todo(&conn, todo_a.id).unwrap();
    assert_eq!(sessions.len(), 2);
}

#[test]
fn record_completed_inserts_an_already_completed_session() {
    let conn = setup_conn();
    let todo = todo_queries::create(&conn, "作業", None).unwrap();
    let session = session_queries::record_completed(&conn, todo.id, "2026-07-04T10:00:00+09:00").unwrap();
    assert!(session.completed);
}

#[test]
fn chunks_since_a_cutoff() {
    let conn = setup_conn();
    let a = todo_queries::create(&conn, "A", None).unwrap();
    session_queries::record_focus(&conn, a.id, "2026-07-20T10:00:00+00:00", 600, true, 0).unwrap();
    session_queries::record_focus(&conn, a.id, "2020-01-01T00:00:00+00:00", 999, false, 0).unwrap();
    session_queries::record_focus(&conn, a.id, "2026-07-21T10:00:00+00:00", 0, false, 0).unwrap();
    let chunks = session_queries::chunks_since(&conn, "2026-07-01T00:00:00+00:00").unwrap();
    assert_eq!(chunks, vec![(a.id, 600)]);
}

#[test]
fn missing_key_falls_back_to_default() {
    let conn = setup_conn();
    assert!(setting_queries::get(&conn, "nope").unwrap().is_none());
    assert!(setting_queries::get_bool(&conn, "nope", true).unwrap());
    assert!(!setting_queries::get_bool(&conn, "nope", false).unwrap());
}

#[test]
fn set_overwrites_an_existing_key() {
    let conn = setup_conn();
    setting_queries::set_bool(&conn, "mcp_enabled", true).unwrap();
    assert!(setting_queries::get_bool(&conn, "mcp_enabled", false).unwrap());
    setting_queries::set_bool(&conn, "mcp_enabled", false).unwrap();
    assert!(!setting_queries::get_bool(&conn, "mcp_enabled", true).unwrap());
}

#[test]
fn migrations_run_once() {
    let conn = setup_conn();
    migrations::run(&conn).unwrap();
    let version: i64 = conn.query_row("PRAGMA user_version", [], |r| r.get(0)).unwrap();
    assert_eq!(version, 9);
    assert_eq!(migrations::first_pending_index(9, 9), 9);
    assert_eq!(migrations::first_pending_index(3, 9), 3);
    assert_eq!(migrations::first_pending_index(-1, 9), 9);
}

#[test]
fn first_row_takes_the_first_or_reports_none() {
    assert!(matches!(first_row(vec![]), Err(DbError::NoRows)));
    let rows = vec![vec![SqlValue::Integer(1)], vec![SqlValue::Integer(2)]];
    assert_eq!(first_row(rows).unwrap(), vec![SqlValue::Integer(1)]);
}

#[test]
fn row_readers_read_every_row_or_fail_with_column_type() {
    let chunk_rows = vec![
        vec![SqlValue::Integer(1), SqlValue::Integer(60)],
        vec![SqlValue::Integer(2), SqlValue::Integer(90)],
    ];
    assert_eq!(chunks_from_rows(&chunk_rows).unwrap(), vec![(1, 60), (2, 90)]);
    let bad = vec![vec![SqlValue::Integer(1), SqlValue::Text("x".to_string())]];
    assert!(matches!(chunks_from_rows(&bad), Err(DbError::ColumnType)));

    let session_rows = vec![vec![
        SqlValue::Integer(3),
        SqlValue::Text("2026-07-10T09:00:00+00:00".to_string()),
        SqlValue::Integer(1500),
        SqlValue::Integer(1),
        SqlValue::Integer(2),
    ]];
    let rows = session_rows_from(&session_rows).unwrap();
    assert_eq!(rows.len(), 1);
    assert_eq!((rows[0].todo_id, rows[0].duration_secs, rows[0].completed, rows[0].interruptions), (3, 1500, true, 2));
    assert!(matches!(session_rows_from(&bad), Err(DbError::ColumnType)));

    let sessions = vec![vec![
        SqlValue::Integer(7),
        SqlValue::Integer(3),
        SqlValue::Text("2026-07-10T09:00:00+00:00".to_string()),
        SqlValue::Integer(0),
    ]];
    let s = sessions_from_rows(&sessions).unwrap();
    assert_eq!((s[0].id, s[0].todo_id, s[0].completed), (7, 3, false));
    assert!(matches!(sessions_from_rows(&bad), Err(DbError::ColumnType)));

    let timings = vec![vec![
        SqlValue::Integer(1),
        SqlValue::Text("today".to_string()),
        SqlValue::Text("Today".to_string()),
        SqlValue::Text("#fff".to_string()),
        SqlValue::Integer(1),
    ]];
    let t = timings_from_rows(&timings).unwrap();
    assert_eq!((t[0].key.as_str(), t[0].is_builtin), ("today", true));
    assert!(matches!(timings_from_rows(&vec![vec![SqlValue::Null]]), Err(DbError::ColumnType)));
    assert!(timings_from_rows(&vec![]).unwrap().is_empty());
}

#[test]
fn statements_are_what_the_queries_send() {
    let st = todo_queries::toggle_complete_statement(7);
    assert_eq!(st.sql, "UPDATE todo SET is_completed = NOT is_completed WHERE id = ?1");
    assert_eq!(st.params, vec![Param::Integer(7)]);
    let st = todo_queries::update_statement(3, "t", None);
    assert_eq!(st.params, vec![Param::Text("t".to_string()), Param::Null, Param::Integer(3)]);
    let st = todo_queries::get_statement(5);
    assert!(st.sql.starts_with("SELECT id, title, is_completed"));
    assert!(st.sql.ends_with(" FROM todo WHERE id = ?1"));
    let st = session_queries::record_focus_statement(1, "x", 60, true, 2);
    assert_eq!(st.params, vec![
        Param::Integer(1),
        Param::Text("x".to_string()),
        Param::Integer(60),
        Param::Integer(1),
        Param::Integer(2),
    ]);
    let st = timing_queries::move_todos_statement("today");
    assert_eq!(st.params, vec![Param::Text(DEFAULT_TIMING.to_string()), Param::Text("today".to_string())]);
}

#[test]
fn migration_plan_starts_at_the_stored_version() {
    let plan = migrations::migration_plan(0);
    assert_eq!(plan.len(), 9);
    assert_eq!(plan[0].version, 1);
    assert_eq!(plan[0].script, migrations::MIGRATIONS[0].1);
    let plan = migrations::migration_plan(7);
    assert_eq!(plan.iter().map(|s| s.version).collect::<Vec<_>>(), vec![8, 9]);
    assert!(migrations::migration_plan(9).is_empty());
    assert!(migrations::migration_plan(-1).is_empty());
}
