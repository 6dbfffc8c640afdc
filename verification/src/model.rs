//! The records the app shows and stores.

use vstd::prelude::*;

verus! {

/// A todo. `category` is the key of its timing and `focus_secs` its
/// accumulated work time, also for sessions that did not complete.
#[derive(Debug, Clone)]
pub struct Todo {
    pub id: i64,
    pub title: String,
    pub is_completed: bool,
    pub pomodoro_count: i64,
    pub target_count: Option<i64>,
    pub is_active: bool,
    pub created_at: String,
    pub category: String,
    pub focus_secs: i64,
}

#[derive(Debug, Clone)]
pub struct Tag {
    pub id: i64,
    pub name: String,
    pub color: String,
}

/// When a todo is meant to be done; six built-in timings, more can be added.
#[derive(Debug, Clone)]
pub struct Timing {
    pub id: i64,
    pub key: String,
    pub name: String,
    pub color: String,
    pub is_builtin: bool,
}

/// The timing of a new todo (the database default and a built-in timing).
pub const DEFAULT_TIMING: &'static str = "someday";

#[derive(Debug, Clone)]
pub struct PomodoroSession {
    pub id: i64,
    pub todo_id: i64,
    pub started_at: String,
    pub completed: bool,
}

} // verus!
