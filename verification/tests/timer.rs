use cycl::engine::{tray_title, FocusRecord, PendingFocus, TimerEngine};
use cycl::timer::{format_mm_ss, phase_label, TimerPhase, TimerSettings, TimerState};

fn settings() -> TimerSettings {
    TimerSettings::default()
}

#[test]
fn work_session_moves_to_short_break_by_default() {
    let mut state = TimerState::new(settings());
    state.advance_phase();
    assert_eq!(state.phase, TimerPhase::ShortBreak);
    assert_eq!(state.completed_work_sessions, 1);
}

#[test]
fn fourth_work_session_moves_to_long_break() {
    let mut state = TimerState::new(settings());
    for _ in 0..3 {
        state.advance_phase(); // Work -> ShortBreak
        state.advance_phase(); // ShortBreak -> Work
    }
    state.advance_phase(); // the fourth work session -> LongBreak
    assert_eq!(state.phase, TimerPhase::LongBreak);
    assert_eq!(state.completed_work_sessions, 4);
}

#[test]
fn break_always_returns_to_work() {
    let mut state = TimerState::new(settings());
    state.advance_phase(); // -> ShortBreak
    state.advance_phase(); // -> Work
    assert_eq!(state.phase, TimerPhase::Work);
}

#[test]
fn reset_current_phase_restores_full_duration_and_stops() {
    let mut state = TimerState::new(settings());
    state.remaining_secs = 10;
    state.is_running = true;
    state.reset_current_phase();
    assert_eq!(state.remaining_secs, 25 * 60);
    assert!(!state.is_running);
}

#[test]
fn format_mm_ss_pads_with_zero() {
    assert_eq!(format_mm_ss(65), "01:05");
    assert_eq!(format_mm_ss(600), "10:00");
}

#[test]
fn format_mm_ss_keeps_long_minutes() {
    assert_eq!(format_mm_ss(0), "00:00");
    assert_eq!(format_mm_ss(100 * 60 + 7), "100:07");
}

#[test]
fn default_settings_are_the_classic_pomodoro() {
    let s = TimerSettings::default();
    assert_eq!(s.work_minutes, 25);
    assert_eq!(s.short_break_minutes, 5);
    assert_eq!(s.long_break_minutes, 15);
    assert_eq!(s.sessions_before_long_break, 4);
    assert_eq!(s.duration_secs(TimerPhase::LongBreak), 900);
}

#[test]
fn long_break_every_second_session_with_custom_settings() {
    let mut state = TimerState::new(TimerSettings {
        work_minutes: 1,
        short_break_minutes: 2,
        long_break_minutes: 3,
        sessions_before_long_break: 2,
    });
    state.advance_phase();
    assert_eq!(state.phase, TimerPhase::ShortBreak);
    assert_eq!(state.remaining_secs, 120);
    state.advance_phase();
    assert_eq!(state.remaining_secs, 60);
    state.advance_phase();
    assert_eq!(state.phase, TimerPhase::LongBreak);
    assert_eq!(state.remaining_secs, 180);
}

#[test]
fn zero_sessions_before_long_break_never_gives_a_long_break() {
    let mut state = TimerState::new(TimerSettings {
        work_minutes: 25,
        short_break_minutes: 5,
        long_break_minutes: 15,
        sessions_before_long_break: 0,
    });
    for _ in 0..5 {
        state.advance_phase();
        assert_eq!(state.phase, TimerPhase::ShortBreak);
        state.advance_phase();
    }
}

#[test]
fn phase_labels_are_japanese() {
    assert_eq!(phase_label(TimerPhase::Work), "作業");
    assert_eq!(phase_label(TimerPhase::ShortBreak), "短い休憩");
    assert_eq!(phase_label(TimerPhase::LongBreak), "長い休憩");
}

#[test]
fn new_engine_is_stopped_at_a_full_work_session() {
    let engine = TimerEngine::new();
    let s = engine.snapshot();
    assert_eq!(s.phase, TimerPhase::Work);
    assert_eq!(s.remaining_secs, 1500);
    assert!(!s.is_running);
}

#[test]
fn ticking_counts_down_only_while_running() {
    let mut engine = TimerEngine::new();
    let t = engine.advance_clock();
    assert!(!t.accrue_work);
    assert_eq!(t.snapshot.remaining_secs, 1500);
    engine.start();
    let t = engine.advance_clock();
    assert!(t.accrue_work);
    assert!(!t.just_completed_work);
    assert_eq!(t.snapshot.remaining_secs, 1499);
}

#[test]
fn work_seconds_are_credited_to_the_active_todo_and_handed_back_on_pause() {
    let mut engine = TimerEngine::new();
    engine.start();
    for _ in 0..3 {
        let t = engine.advance_clock();
        assert!(t.accrue_work);
        engine.accrue_work_second(Some(7));
    }
    assert!(!engine.needs_active_todo());
    let (state, record) = engine.pause();
    assert!(!state.is_running);
    assert_eq!(
        record,
        Some(FocusRecord { todo_id: 7, secs: 3, completed: false, interruptions: 0 })
    );
    assert!(engine.needs_active_todo());
    // nothing left to hand back
    assert_eq!(engine.flush_focus(), None);
}

#[test]
fn without_an_active_todo_no_seconds_are_kept() {
    let mut engine = TimerEngine::new();
    engine.start();
    engine.advance_clock();
    engine.accrue_work_second(None);
    assert!(engine.needs_active_todo());
    assert_eq!(engine.pause().1, None);
}

#[test]
fn a_completed_session_carries_its_interruptions() {
    let mut engine = TimerEngine::new();
    engine.start();
    engine.advance_clock();
    engine.accrue_work_second(Some(1));
    // a switch of todo and a pause during work: two interruptions
    assert_eq!(
        engine.flush_focus(),
        Some(FocusRecord { todo_id: 1, secs: 1, completed: false, interruptions: 0 })
    );
    engine.pause();
    engine.start();
    let mut completed = false;
    for _ in 0..1499 {
        let t = engine.advance_clock();
        if t.accrue_work {
            engine.accrue_work_second(Some(1));
        }
        if t.just_completed_work {
            completed = true;
        }
    }
    assert!(completed);
    let record = engine.complete_work_session();
    assert_eq!(
        record,
        Some(FocusRecord { todo_id: 1, secs: 1499, completed: true, interruptions: 2 })
    );
    let s = engine.snapshot();
    assert_eq!(s.phase, TimerPhase::ShortBreak);
    assert_eq!(s.completed_work_sessions, 1);
    assert!(!s.is_running);
}

#[test]
fn pausing_a_break_is_no_interruption_and_reset_drops_the_count() {
    let mut engine = TimerEngine::new();
    engine.start();
    engine.pause();
    let (state, record) = engine.reset();
    assert_eq!(record, None);
    assert_eq!(state.remaining_secs, 1500);
    assert!(!state.is_running);
}

#[test]
fn tray_title_shows_time_only_while_running() {
    let mut engine = TimerEngine::new();
    assert_eq!(tray_title(&engine.snapshot()), None);
    let s = engine.start();
    assert_eq!(tray_title(&s), Some("25:00".to_string()));
}

#[test]
fn pending_seconds_and_interruptions_can_be_read() {
    let mut engine = TimerEngine::new();
    assert_eq!(engine.pending_focus(), PendingFocus { todo_id: None, secs: 0 });
    assert_eq!(engine.interruption_count(), 0);
    engine.start();
    engine.advance_clock();
    engine.accrue_work_second(Some(4));
    engine.advance_clock();
    engine.accrue_work_second(Some(9));
    assert_eq!(engine.pending_focus(), PendingFocus { todo_id: Some(4), secs: 2 });
    let record = engine.flush_focus();
    assert_eq!(record, Some(FocusRecord { todo_id: 4, secs: 2, completed: false, interruptions: 0 }));
    assert_eq!(engine.interruption_count(), 1);
    assert_eq!(engine.flush_focus(), None);
    assert_eq!(engine.interruption_count(), 2);
}
