use cycl::model::Tag;
use cycl::view::{available_tags, filter_by_tag_id, focus_percent, new_todo_category, reorder_enabled};
use cycl::view::{bar_scale, heat_level, recent_estimates};
use cycl::view::{legend_names, recent_months, total_secs};
use cycl::view::{completion_message, period_days};
use cycl::model::Todo;
use cycl::stats::HourFocus;
use cycl::timer::TimerPhase;
use cycl::view::{
    active_title, cell_secs, mcp_config, part_secs, peak_secs, reorder_on_hover, submitted_estimate,
    submitted_title, target_label, timer_label,
};

fn todo(id: i64, active: bool) -> Todo {
    Todo {
        id,
        title: format!("t{id}"),
        is_completed: false,
        pomodoro_count: 0,
        target_count: None,
        is_active: active,
        created_at: String::new(),
        category: "someday".to_string(),
        focus_secs: 0,
    }
}

fn ids(items: &[Todo]) -> Vec<i64> {
    items.iter().map(|t| t.id).collect()
}

#[test]
fn dragging_down_places_the_row_after_the_hovered_one() {
    let mut items: Vec<Todo> = (1..=5).map(|i| todo(i, false)).collect();
    reorder_on_hover(&mut items, 2, 4);
    assert_eq!(ids(&items), vec![1, 3, 4, 2, 5]);
}

#[test]
fn dragging_up_places_the_row_before_the_hovered_one() {
    let mut items: Vec<Todo> = (1..=5).map(|i| todo(i, false)).collect();
    reorder_on_hover(&mut items, 5, 2);
    assert_eq!(ids(&items), vec![1, 5, 2, 3, 4]);
}

#[test]
fn dragging_over_itself_or_unknown_rows_changes_nothing() {
    let mut items: Vec<Todo> = (1..=3).map(|i| todo(i, false)).collect();
    reorder_on_hover(&mut items, 2, 2);
    reorder_on_hover(&mut items, 9, 1);
    reorder_on_hover(&mut items, 1, 9);
    assert_eq!(ids(&items), vec![1, 2, 3]);
}

#[test]
fn timer_label_names_the_active_todo_during_work() {
    let todos = vec![todo(1, false), todo(2, true)];
    let title = active_title(&todos);
    assert_eq!(title, Some("t2".to_string()));
    assert_eq!(timer_label(TimerPhase::Work, title.clone()), "t2");
    assert_eq!(timer_label(TimerPhase::ShortBreak, title), "短い休憩");
    assert_eq!(timer_label(TimerPhase::Work, None), "作業");
}

#[test]
fn form_inputs_are_checked() {
    assert_eq!(submitted_title("  milk "), Some("milk".to_string()));
    assert_eq!(submitted_title(" \t "), None);
    assert_eq!(submitted_estimate("3"), Some(3));
    assert_eq!(submitted_estimate("  "), None);
    assert_eq!(submitted_estimate(" 3"), None);
    assert_eq!(submitted_estimate("x"), None);
    assert_eq!(target_label(Some(4)), " / 4");
    assert_eq!(target_label(None), "");
}

#[test]
fn heat_map_helpers() {
    let cells = vec![
        HourFocus { weekday: 0, hour: 9, secs: 900 },
        HourFocus { weekday: 0, hour: 14, secs: 120 },
        HourFocus { weekday: 4, hour: 23, secs: 60 },
        HourFocus { weekday: 6, hour: 2, secs: 30 },
    ];
    assert_eq!(peak_secs(&cells), 900);
    assert_eq!(peak_secs(&vec![]), 0);
    assert_eq!(cell_secs(&cells, 0, 14), 120);
    assert_eq!(cell_secs(&cells, 1, 14), 0);
    assert_eq!(part_secs(&cells, 5, 11), Some(900));
    assert_eq!(part_secs(&cells, 12, 17), Some(120));
    assert_eq!(part_secs(&cells, 18, 4), Some(90));
}

#[test]
fn part_secs_refuses_a_sum_past_i64() {
    let cells = vec![
        HourFocus { weekday: 0, hour: 9, secs: i64::MAX },
        HourFocus { weekday: 1, hour: 9, secs: 1 },
        HourFocus { weekday: 2, hour: 20, secs: 5 },
    ];
    assert_eq!(part_secs(&cells, 5, 11), None);
    assert_eq!(part_secs(&cells, 18, 4), Some(5));
}

#[test]
fn mcp_config_carries_port_and_token() {
    let text = mcp_config(3737, "abc");
    assert!(text.contains("\"url\": \"http://127.0.0.1:3737/mcp\""));
    assert!(text.contains("\"Authorization\": \"Bearer abc\""));
    assert!(text.starts_with("{\n  \"mcpServers\""));
}

#[test]
fn periods_and_notification_text() {
    assert_eq!(period_days("week"), 7);
    assert_eq!(period_days("month"), 30);
    assert_eq!(period_days("year"), 365);
    assert_eq!(period_days("decade"), 7);
    assert_eq!(completion_message("write", 3), "\"write\" finished a session 🍅×3");
}

#[test]
fn tag_chart_helpers() {
    assert_eq!(recent_months("2026-02", 3), vec!["2025-12", "2026-01", "2026-02"]);
    assert!(recent_months("2026-02", 0).is_empty());
    let names: Vec<String> = ["work", "home", "work", "deep", "home"].iter().map(|s| s.to_string()).collect();
    assert_eq!(legend_names(&names), vec!["work", "home", "deep"]);
    assert_eq!(total_secs(&vec![60, 120, 30]), Some(210));
    assert_eq!(total_secs(&vec![]), Some(0));
    assert_eq!(total_secs(&vec![i64::MAX, 1]), None);
}

#[test]
fn heat_levels_and_estimate_bars() {
    assert_eq!(heat_level(0, 900), 0);
    assert_eq!(heat_level(900, 0), 0);
    assert_eq!(heat_level(900, 900), 4);
    assert_eq!(heat_level(1, 900), 1);
    assert_eq!(heat_level(225, 900), 1);
    assert_eq!(heat_level(226, 900), 2);
    assert_eq!(heat_level(450, 900), 2);
    assert_eq!(heat_level(675, 900), 3);
    assert_eq!(heat_level(676, 900), 4);
    let pairs = vec![(1, 2), (3, 3), (4, 6), (2, 1)];
    assert_eq!(recent_estimates(&pairs, 2), vec![(2, 1), (4, 6)]);
    assert_eq!(recent_estimates(&pairs, 8), vec![(2, 1), (4, 6), (3, 3), (1, 2)]);
    assert_eq!(bar_scale(&pairs), 6);
    assert_eq!(bar_scale(&vec![]), 1);
    assert_eq!(bar_scale(&vec![(0, 0)]), 1);
}

fn tag(id: i64, name: &str) -> Tag {
    Tag { id, name: name.to_string(), color: "#000000".to_string() }
}

#[test]
fn todo_list_filters_and_defaults() {
    let all = vec![tag(1, "a"), tag(2, "b"), tag(3, "c")];
    let assigned = vec![tag(2, "b")];
    let ids: Vec<i64> = available_tags(all, &assigned).iter().map(|t| t.id).collect();
    assert_eq!(ids, vec![1, 3]);

    let todos = vec![todo(1, false), todo(2, false), todo(3, false)];
    let sets = vec![vec![tag(1, "a")], vec![], vec![tag(2, "b"), tag(1, "a")]];
    let kept: Vec<i64> = filter_by_tag_id(todos, &sets, 1).iter().map(|t| t.id).collect();
    assert_eq!(kept, vec![1, 3]);

    assert!(reorder_enabled(None, None));
    assert!(!reorder_enabled(Some(1), None));
    assert!(!reorder_enabled(None, Some("today")));
    assert_eq!(new_todo_category(Some("today")), "today");
    assert_eq!(new_todo_category(None), "someday");
}

#[test]
fn focus_percent_rounds_toward_zero() {
    assert_eq!(focus_percent(1, 3), 33);
    assert_eq!(focus_percent(2, 3), 66);
    assert_eq!(focus_percent(300, 300), 100);
    assert_eq!(focus_percent(-1, 3), -33);
}
