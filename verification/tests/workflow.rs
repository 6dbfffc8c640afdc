use cycl::workflow::{tag_plan, TagStep};
use cycl::db::{analytics_queries, migrations, tag_queries, todo_queries};
use cycl::engine::FocusRecord;
use cycl::workflow::{
    active_todo_id, complete_active_pomodoro, create_todo_with_tags, has_tag_named, keep_tagged, store_focus, todos_matching,
    NEW_TAG_COLOR,
};
use rusqlite::Connection;

fn setup_conn() -> Connection {
    let conn = Connection::open_in_memory().unwrap();
    migrations::run(&conn).unwrap();
    conn
}

#[test]
fn create_todo_with_tags_reuses_and_creates_tags() {
    let conn = setup_conn();
    let work = tag_queries::create(&conn, "work", "#ff0000").unwrap();
    let names = vec!["work".to_string(), "deep".to_string()];
    let todo = create_todo_with_tags(&conn, "write report", Some(3), Some("today"), &names).unwrap();
    assert_eq!(todo.title, "write report");
    assert_eq!(todo.target_count, Some(3));
    assert_eq!(todo.category, "today");

    let tags = tag_queries::tags_for_todo(&conn, todo.id).unwrap();
    let tag_names: Vec<&str> = tags.iter().map(|t| t.name.as_str()).collect();
    assert_eq!(tag_names, vec!["deep", "work"]);
    let deep = tags.iter().find(|t| t.name == "deep").unwrap();
    assert_eq!(deep.color, NEW_TAG_COLOR);
    assert!(tags.iter().any(|t| t.id == work.id));
    assert_eq!(tag_queries::list(&conn).unwrap().len(), 2);
}

#[test]
fn create_todo_without_category_keeps_the_default() {
    let conn = setup_conn();
    let todo = create_todo_with_tags(&conn, "read", None, None, &vec![]).unwrap();
    assert_eq!(todo.category, "someday");
    assert!(tag_queries::tags_for_todo(&conn, todo.id).unwrap().is_empty());
}

#[test]
fn todos_matching_filters_by_tag_and_category() {
    let conn = setup_conn();
    let a = create_todo_with_tags(&conn, "a", None, Some("today"), &vec!["x".to_string()]).unwrap();
    let b = create_todo_with_tags(&conn, "b", None, Some("someday"), &vec!["x".to_string()]).unwrap();
    let c = create_todo_with_tags(&conn, "c", None, Some("today"), &vec![]).unwrap();

    let ids = |ts: Vec<cycl::model::Todo>| ts.iter().map(|t| t.id).collect::<Vec<i64>>();
    assert_eq!(ids(todos_matching(&conn, None, None).unwrap()), vec![a.id, b.id, c.id]);
    assert_eq!(ids(todos_matching(&conn, Some("x"), None).unwrap()), vec![a.id, b.id]);
    assert_eq!(ids(todos_matching(&conn, None, Some("today")).unwrap()), vec![a.id, c.id]);
    assert_eq!(ids(todos_matching(&conn, Some("x"), Some("today")).unwrap()), vec![a.id]);
    assert!(todos_matching(&conn, Some("nope"), None).unwrap().is_empty());
}

#[test]
fn has_tag_named_looks_at_names() {
    let conn = setup_conn();
    tag_queries::create(&conn, "alpha", "#000000").unwrap();
    let tags = tag_queries::list(&conn).unwrap();
    assert!(has_tag_named(&tags, "alpha"));
    assert!(!has_tag_named(&tags, "beta"));
}

#[test]
fn store_focus_writes_the_chunk_and_the_focus_time() {
    let conn = setup_conn();
    let todo = todo_queries::create(&conn, "focus", None).unwrap();
    let record = FocusRecord { todo_id: todo.id, secs: 90, completed: true, interruptions: 2 };
    store_focus(&conn, &record, "2026-07-10T09:00:00+00:00");
    let rows = analytics_queries::load_sessions(&conn).unwrap();
    assert_eq!(rows.len(), 1);
    assert_eq!(rows[0].duration_secs, 90);
    assert!(rows[0].completed);
    assert_eq!(rows[0].interruptions, 2);
    assert_eq!(todo_queries::get(&conn, todo.id).unwrap().focus_secs, 90);
}

#[test]
fn completing_a_pomodoro_counts_it_for_the_active_todo() {
    let conn = setup_conn();
    assert_eq!(complete_active_pomodoro(&conn), None);
    assert_eq!(active_todo_id(&conn), None);
    let todo = todo_queries::create(&conn, "tomato", None).unwrap();
    todo_queries::set_active(&conn, Some(todo.id)).unwrap();
    assert_eq!(active_todo_id(&conn), Some(todo.id));
    assert_eq!(complete_active_pomodoro(&conn).unwrap(), "\"tomato\" finished a session 🍅×1");
    assert_eq!(complete_active_pomodoro(&conn).unwrap(), "\"tomato\" finished a session 🍅×2");
    assert_eq!(todo_queries::get(&conn, todo.id).unwrap().pomodoro_count, 2);
}

#[test]
fn keep_tagged_keeps_todos_with_the_named_tag() {
    let conn = setup_conn();
    let a = todo_queries::create(&conn, "a", None).unwrap();
    let b = todo_queries::create(&conn, "b", None).unwrap();
    let x = tag_queries::create(&conn, "x", "#000000").unwrap();
    let y = tag_queries::create(&conn, "y", "#000000").unwrap();
    let sets = vec![vec![x.clone()], vec![y.clone(), x.clone()]];
    let kept = keep_tagged(vec![a.clone(), b.clone()], &sets, "y");
    assert_eq!(kept.iter().map(|t| t.id).collect::<Vec<_>>(), vec![b.id]);
    let kept = keep_tagged(vec![a.clone(), b.clone()], &sets, "x");
    assert_eq!(kept.iter().map(|t| t.id).collect::<Vec<_>>(), vec![a.id, b.id]);
    assert!(keep_tagged(vec![a, b], &sets, "z").is_empty());
}

#[test]
fn tag_plan_reuses_known_tags_and_creates_the_rest() {
    let conn = setup_conn();
    let work = tag_queries::create(&conn, "work", "#ff0000").unwrap();
    let existing = tag_queries::list(&conn).unwrap();
    let names = vec!["work".to_string(), "new".to_string()];
    let plan = tag_plan(&existing, &names);
    assert_eq!(plan.len(), 2);
    assert!(matches!(plan[0], TagStep::Reuse(id) if id == work.id));
    assert!(matches!(&plan[1], TagStep::Create(n) if n == "new"));
}
