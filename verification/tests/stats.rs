use chrono::{Local, TimeZone};
use cycl::clock::{format_year_month, in_month, local_time_of};
use cycl::db::{analytics_queries, migrations, session_queries, todo_queries};
use cycl::clock::LocalCalendar;
use cycl::stats::{focus_hours_of_rows, hour_table, monthly_totals, stamps_in_month, tally_rows, HourStamp, SessionRow};
use rusqlite::Connection;

fn setup_conn() -> Connection {
    let conn = Connection::open_in_memory().unwrap();
    migrations::run(&conn).unwrap();
    conn
}

/// An RFC 3339 text surely in July 2026 in local time.
fn local_ts(day: u32, hour: u32) -> String {
    Local.with_ymd_and_hms(2026, 7, day, hour, 0, 0).unwrap().to_rfc3339()
}

#[test]
fn monthly_stats_averages_interruptions_over_completed_sessions() {
    let conn = setup_conn();
    let todo = todo_queries::create(&conn, "work", None).unwrap();
    session_queries::record_focus(&conn, todo.id, &local_ts(10, 9), 1500, true, 3).unwrap();
    session_queries::record_focus(&conn, todo.id, &local_ts(11, 9), 1500, true, 1).unwrap();
    session_queries::record_focus(&conn, todo.id, &local_ts(12, 9), 300, false, 0).unwrap();

    let rows = analytics_queries::load_sessions(&conn).unwrap();
    let totals = monthly_totals(&rows, "2026-07").unwrap();
    assert_eq!(totals.total_focus_secs, 3300);
    assert_eq!(totals.completed_sessions, 2);
    assert_eq!(totals.interruptions, 4);
    assert_eq!(totals.interruptions as f64 / totals.completed_sessions as f64, 2.0);
}

#[test]
fn monthly_stats_ignores_other_months() {
    let conn = setup_conn();
    let todo = todo_queries::create(&conn, "work", None).unwrap();
    session_queries::record_focus(&conn, todo.id, &local_ts(10, 9), 1500, true, 0).unwrap();

    let rows = analytics_queries::load_sessions(&conn).unwrap();
    let totals = monthly_totals(&rows, "2026-06").unwrap();
    assert_eq!(totals.total_focus_secs, 0);
    assert_eq!(totals.completed_sessions, 0);
}

#[test]
fn focus_hours_buckets_by_weekday_and_hour() {
    let conn = setup_conn();
    let todo = todo_queries::create(&conn, "work", None).unwrap();
    session_queries::record_focus(&conn, todo.id, &local_ts(10, 9), 600, true, 0).unwrap();
    session_queries::record_focus(&conn, todo.id, &local_ts(10, 9), 300, true, 0).unwrap();
    session_queries::record_focus(&conn, todo.id, &local_ts(10, 14), 120, true, 0).unwrap();

    let rows = analytics_queries::load_sessions(&conn).unwrap();
    let hours = focus_hours_of_rows(&rows, "2026-07").unwrap();
    let at = |h: i64| hours.iter().find(|x| x.hour == h).map(|x| x.secs);
    assert_eq!(at(9), Some(900));
    assert_eq!(at(14), Some(120));
    // 2026-07-10 is a Friday
    assert!(hours.iter().all(|x| x.weekday == 4));
}

#[test]
fn hour_table_sums_and_sorts_cells() {
    let stamps = vec![
        HourStamp { weekday: 3, hour: 10, secs: 5 },
        HourStamp { weekday: 0, hour: 23, secs: 7 },
        HourStamp { weekday: 3, hour: 10, secs: 6 },
        HourStamp { weekday: 0, hour: 1, secs: 1 },
    ];
    let table = hour_table(&stamps).unwrap();
    let cells: Vec<(i64, i64, i64)> = table.iter().map(|c| (c.weekday, c.hour, c.secs)).collect();
    assert_eq!(cells, vec![(0, 1, 1), (0, 23, 7), (3, 10, 11)]);
}

#[test]
fn in_month_reads_local_time() {
    assert!(in_month(&local_ts(15, 12), "2026-07"));
    assert!(!in_month(&local_ts(15, 12), "2026-08"));
    assert!(!in_month("not a time", "2026-07"));
    assert_eq!(format_year_month(2026, 7), "2026-07");
    assert_eq!(format_year_month(12345, 1), "+12345-01");
    assert_eq!(format_year_month(-3, 11), "-0003-11");
    assert_eq!(format_year_month(7, 2), "0007-02");
}

#[test]
fn estimation_counts_need_an_estimate() {
    let conn = setup_conn();
    let a = todo_queries::create(&conn, "no target", None).unwrap();
    assert_eq!(analytics_queries::estimation_counts(&conn, a.id), None);
    let b = todo_queries::create(&conn, "write docs", Some(3)).unwrap();
    todo_queries::increment_pomodoro_count(&conn, b.id).unwrap();
    todo_queries::increment_pomodoro_count(&conn, b.id).unwrap();
    assert_eq!(analytics_queries::estimation_counts(&conn, b.id), Some((3, 2)));
}

#[test]
fn hour_table_refuses_a_cell_past_i64() {
    let stamps = vec![
        HourStamp { weekday: 1, hour: 2, secs: i64::MAX },
        HourStamp { weekday: 0, hour: 2, secs: 1 },
        HourStamp { weekday: 1, hour: 2, secs: 1 },
    ];
    assert!(hour_table(&stamps).is_none());
    let fine = vec![
        HourStamp { weekday: 1, hour: 2, secs: i64::MAX },
        HourStamp { weekday: 1, hour: 2, secs: -1 },
    ];
    let table = hour_table(&fine).unwrap();
    assert_eq!(table.len(), 1);
    assert_eq!(table[0].secs, i64::MAX - 1);
}

fn row(started_at: &str, duration_secs: i64, completed: bool, interruptions: i64) -> SessionRow {
    SessionRow { todo_id: 1, started_at: started_at.to_string(), duration_secs, completed, interruptions }
}

fn cal(year: i32, month: u32, weekday: u32, hour: u32) -> Option<LocalCalendar> {
    Some(LocalCalendar { year, month, weekday, hour })
}

#[test]
fn tally_rows_counts_the_month_from_given_readings() {
    let rows = vec![
        row("a", 1500, true, 2),
        row("b", 300, false, 5),
        row("c", 900, true, 1),
        row("d", 700, true, 4),
    ];
    let cals = vec![cal(2026, 7, 0, 9), cal(2026, 7, 1, 10), None, cal(2026, 8, 2, 11)];
    let t = tally_rows(&rows, &cals, "2026-07").unwrap();
    assert_eq!(t.total_focus_secs, 1800);
    assert_eq!(t.completed_sessions, 1);
    assert_eq!(t.interruptions, 2);

    let stamps = stamps_in_month(&rows, &cals, "2026-07");
    assert_eq!(stamps, vec![
        HourStamp { weekday: 0, hour: 9, secs: 1500 },
        HourStamp { weekday: 1, hour: 10, secs: 300 },
    ]);
}

#[test]
fn tally_rows_refuses_a_total_past_i64() {
    let rows = vec![row("a", i64::MAX, false, 0), row("b", 1, false, 0)];
    let cals = vec![cal(2026, 7, 0, 9), cal(2026, 7, 0, 9)];
    assert!(tally_rows(&rows, &cals, "2026-07").is_none());
    let other_month = vec![cal(2026, 7, 0, 9), cal(2026, 6, 0, 9)];
    assert_eq!(tally_rows(&rows, &other_month, "2026-07").unwrap().total_focus_secs, i64::MAX);
}

#[test]
fn local_time_of_reads_every_rfc3339_text() {
    let c = local_time_of(&local_ts(15, 12)).unwrap();
    assert_eq!((c.year, c.month, c.hour), (2026, 7, 12));
    assert!(local_time_of("2026-07-15T12:00:00Z").is_some());
    assert!(local_time_of("2026-07-15 12:00").is_none());
}
