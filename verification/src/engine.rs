//! The decisions of the running timer. The state that the desktop app shares
//! between its commands and its one-second ticker lives here; the app performs
//! the database writes, notifications and events that these functions ask for.

use vstd::prelude::*;
use crate::timer::{
    default_settings, format_mm_ss, mm_ss, next_phase, phase_secs, settings_fit, TimerPhase,
    TimerSettings, TimerState,
};

verus! {

/// Work seconds of the active todo that are not yet written to the database.
#[derive(Debug, Clone, Copy, PartialEq, Eq, Structural)]
pub struct PendingFocus {
    pub todo_id: Option<i64>,
    pub secs: i64,
}

/// A chunk of work time to record for a todo (a `pomodoro_session` row, and
/// the same seconds added to the todo's accumulated focus time).
#[derive(Debug, Clone, Copy, PartialEq, Eq, Structural)]
pub struct FocusRecord {
    pub todo_id: i64,
    pub secs: i64,
    /// Whether the chunk ends a completed work session.
    pub completed: bool,
    /// Interruptions during the session; only set on completed chunks.
    pub interruptions: i64,
}

/// What one second of the ticker did to the clock.
#[derive(Debug, Clone, Copy, PartialEq, Eq, Structural)]
pub struct ClockTick {
    /// The second was spent in a running work phase.
    pub accrue_work: bool,
    /// The second ended a work phase.
    pub just_completed_work: bool,
    /// The timer after the second.
    pub snapshot: TimerState,
}

/// The record that flushing `pending` produces: nothing unless there are
/// seconds for a known todo.
pub open spec fn flush_of(pending: PendingFocus, completed: bool, interruptions: i64) -> Option<FocusRecord> {
    if pending.secs > 0 && pending.todo_id is Some {
        Some(FocusRecord {
            todo_id: pending.todo_id->0,
            secs: pending.secs,
            completed,
            interruptions,
        })
    } else {
        None
    }
}

/// One interruption if the timer is running a work phase, none otherwise.
pub open spec fn interruption_of(s: TimerState) -> int {
    if s.is_running && s.phase == TimerPhase::Work { 1 } else { 0 }
}

/// `s` with its countdown running or stopped.
pub open spec fn with_running(s: TimerState, running: bool) -> TimerState {
    TimerState { is_running: running, ..s }
}

/// `s` stopped at the full length of its phase.
pub open spec fn restarted(s: TimerState) -> TimerState {
    TimerState { remaining_secs: phase_secs(s.settings, s.phase) as u32, is_running: false, ..s }
}

/// The timer of a new engine: the first work session of the default settings, stopped.
pub open spec fn initial_timer() -> TimerState {
    TimerState {
        phase: TimerPhase::Work,
        remaining_secs: 1500,
        is_running: false,
        completed_work_sessions: 0,
        settings: default_settings(),
    }
}

pub open spec fn empty_pending() -> PendingFocus {
    PendingFocus { todo_id: None, secs: 0 }
}

/// `pending` after one work second: the todo stays, or becomes `active_todo`
/// if there was none; the second counts only if there is a todo to credit.
pub open spec fn credited(pending: PendingFocus, active_todo: Option<i64>) -> PendingFocus {
    let todo_id = if pending.todo_id is None { active_todo } else { pending.todo_id };
    PendingFocus { todo_id, secs: if todo_id is Some { (pending.secs + 1) as i64 } else { pending.secs } }
}

/// The clock after one second: a running timer counts down, and reaching zero
/// ends the phase. A stopped timer does not change.
pub open spec fn clock_after_second(s: TimerState) -> TimerState {
    if !s.is_running {
        s
    } else {
        let remaining = if s.remaining_secs > 0 { (s.remaining_secs - 1) as u32 } else { 0u32 };
        if remaining == 0 {
            let phase = next_phase(
                s.phase,
                s.completed_work_sessions as int,
                s.settings.sessions_before_long_break as int,
            );
            TimerState {
                phase,
                remaining_secs: phase_secs(s.settings, phase) as u32,
                is_running: false,
                completed_work_sessions: if s.phase == TimerPhase::Work {
                    (s.completed_work_sessions + 1) as u32
                } else {
                    s.completed_work_sessions
                },
                settings: s.settings,
            }
        } else {
            TimerState { remaining_secs: remaining, ..s }
        }
    }
}

pub struct TimerEngine {
    state: TimerState,
    pending: PendingFocus,
    /// Interruptions (pauses, switches of the active todo) during the current
    /// work phase; written with the chunk that completes the phase.
    phase_interruptions: i64,
}

impl TimerEngine {
    pub closed spec fn timer(&self) -> TimerState {
        self.state
    }

    pub closed spec fn pending(&self) -> PendingFocus {
        self.pending
    }

    pub closed spec fn interruptions(&self) -> i64 {
        self.phase_interruptions
    }

    /// What every engine operation keeps: a well-formed timer, and pending
    /// seconds only for a known todo.
    #[verifier::type_invariant]
    spec fn wf(self) -> bool {
        &&& self.state.wf()
        &&& self.pending.secs >= 0
        &&& self.pending.todo_id is None ==> self.pending.secs == 0
        &&& self.phase_interruptions >= 0
    }

    /// A stopped engine with the default settings and nothing pending.
    pub fn new() -> (e: Self)
        ensures
            e.timer() == initial_timer(),
            e.pending() == empty_pending(),
            e.interruptions() == 0,
    {
        let settings = TimerSettings::default();
        TimerEngine {
            state: TimerState::new(settings),
            pending: PendingFocus { todo_id: None, secs: 0 },
            phase_interruptions: 0,
        }
    }

    pub fn snapshot(&self) -> (s: TimerState)
        ensures
            s == self.timer(),
    {
        self.state
    }

    /// The work seconds not yet handed back to be recorded.
    pub fn pending_focus(&self) -> (p: PendingFocus)
        ensures
            p == self.pending(),
    {
        self.pending
    }

    /// The interruptions counted in the current work phase.
    pub fn interruption_count(&self) -> (n: i64)
        ensures
            n == self.interruptions(),
    {
        self.phase_interruptions
    }

    /// Starts (or resumes) the countdown.
    pub fn start(&mut self) -> (s: TimerState)
        requires
        ensures
            final(self).timer() == with_running(old(self).timer(), true),
            final(self).pending() == old(self).pending(),
            final(self).interruptions() == old(self).interruptions(),
            s == final(self).timer(),
    {
        proof { use_type_invariant(&*self); }
        self.state.is_running = true;
        self.state
    }

    /// Counts a pause or a switch of the active todo during a running work
    /// phase as one interruption.
    fn count_interruption(&mut self)
        requires
            interruption_of(old(self).timer()) == 1 ==> old(self).interruptions() < i64::MAX,
        ensures
            final(self).interruptions() == old(self).interruptions() + interruption_of(old(self).timer()),
            !old(self).timer().is_running ==> final(self).interruptions() == old(self).interruptions(),
            final(self).timer() == old(self).timer(),
            final(self).pending() == old(self).pending(),
    {
        proof { use_type_invariant(&*self); }
        if self.state.is_running && self.state.phase == TimerPhase::Work {
            self.phase_interruptions = self.phase_interruptions + 1;
        }
    }

    /// Takes the pending work seconds, leaving nothing pending.
    fn take_pending(&mut self, completed: bool, interruptions: i64) -> (r: Option<FocusRecord>)
        ensures
            r == flush_of(old(self).pending(), completed, interruptions),
            final(self).pending() == empty_pending(),
            final(self).timer() == old(self).timer(),
            final(self).interruptions() == old(self).interruptions(),
    {
        proof { use_type_invariant(&*self); }
        let r = if self.pending.secs > 0 {
            match self.pending.todo_id {
                Some(id) => Some(FocusRecord { todo_id: id, secs: self.pending.secs, completed, interruptions }),
                None => None,
            }
        } else {
            None
        };
        self.pending = PendingFocus { todo_id: None, secs: 0 };
        r
    }

    /// Stops the countdown. A pause during a running work phase counts as an
    /// interruption; the pending work seconds are handed back to be recorded.
    pub fn pause(&mut self) -> (r: (TimerState, Option<FocusRecord>))
        requires
            interruption_of(old(self).timer()) == 1 ==> old(self).interruptions() < i64::MAX,
        ensures
            final(self).timer() == with_running(old(self).timer(), false),
            final(self).interruptions() == old(self).interruptions() + interruption_of(old(self).timer()),
            old(self).timer().is_running && old(self).timer().phase == TimerPhase::Work
                ==> final(self).interruptions() == old(self).interruptions() + 1,
            !(old(self).timer().is_running && old(self).timer().phase == TimerPhase::Work)
                ==> final(self).interruptions() == old(self).interruptions(),
            final(self).pending() == empty_pending(),
            r.0 == final(self).timer(),
            r.1 == flush_of(old(self).pending(), false, 0),
    {
        proof { use_type_invariant(&*self); }
        self.count_interruption();
        self.state.is_running = false;
        let record = self.take_pending(false, 0);
        (self.state, record)
    }

    /// Restarts the current phase: the pending seconds are handed back to be
    /// recorded and the phase's interruption count is dropped.
    pub fn reset(&mut self) -> (r: (TimerState, Option<FocusRecord>))
        requires
        ensures
            final(self).timer() == restarted(old(self).timer()),
            final(self).interruptions() == 0,
            final(self).pending() == empty_pending(),
            r.0 == final(self).timer(),
            r.1 == flush_of(old(self).pending(), false, 0),
    {
        proof { use_type_invariant(&*self); }
        let record = self.take_pending(false, 0);
        let mut st = self.state;
        st.reset_current_phase();
        self.state = st;
        self.phase_interruptions = 0;
        (self.state, record)
    }

    /// Hands back the pending seconds before the active todo changes. A switch
    /// during a running work phase counts as an interruption.
    pub fn flush_focus(&mut self) -> (r: Option<FocusRecord>)
        requires
            interruption_of(old(self).timer()) == 1 ==> old(self).interruptions() < i64::MAX,
        ensures
            final(self).timer() == old(self).timer(),
            final(self).interruptions() == old(self).interruptions() + interruption_of(old(self).timer()),
            old(self).timer().is_running && old(self).timer().phase == TimerPhase::Work
                ==> final(self).interruptions() == old(self).interruptions() + 1,
            !(old(self).timer().is_running && old(self).timer().phase == TimerPhase::Work)
                ==> final(self).interruptions() == old(self).interruptions(),
            final(self).pending() == empty_pending(),
            r == flush_of(old(self).pending(), false, 0),
    {
        proof { use_type_invariant(&*self); }
        self.count_interruption();
        self.take_pending(false, 0)
    }

    /// One second of the ticker, on the clock alone.
    pub fn advance_clock(&mut self) -> (t: ClockTick)
        requires
            old(self).timer().is_running && old(self).timer().phase == TimerPhase::Work
                && old(self).timer().remaining_secs <= 1 ==> old(self).timer().completed_work_sessions < u32::MAX,
        ensures
            final(self).timer() == clock_after_second(old(self).timer()),
            final(self).pending() == old(self).pending(),
            final(self).interruptions() == old(self).interruptions(),
            t.accrue_work == (old(self).timer().is_running && old(self).timer().phase == TimerPhase::Work),
            t.just_completed_work == (old(self).timer().is_running
                && old(self).timer().phase == TimerPhase::Work
                && old(self).timer().remaining_secs <= 1),
            t.snapshot == final(self).timer(),
    {
        proof { use_type_invariant(&*self); }
        let mut accrue_work = false;
        let mut just_completed_work = false;
        let mut st = self.state;
        if st.is_running {
            accrue_work = st.phase == TimerPhase::Work;
            if st.remaining_secs > 0 {
                st.remaining_secs = st.remaining_secs - 1;
            }
            if st.remaining_secs == 0 {
                just_completed_work = st.phase == TimerPhase::Work;
                st.advance_phase();
            }
        }
        self.state = st;
        ClockTick { accrue_work, just_completed_work, snapshot: self.state }
    }

    /// Whether crediting a work second needs the id of the active todo (it is
    /// looked up once, then kept until the next flush).
    pub fn needs_active_todo(&self) -> (b: bool)
        ensures
            b == (self.pending().todo_id is None),
    {
        self.pending.todo_id.is_none()
    }

    /// Credits one work second to the pending todo. With no pending todo yet,
    /// `active_todo` (the todo marked active, if any) becomes the pending one.
    pub fn accrue_work_second(&mut self, active_todo: Option<i64>)
        requires
            (old(self).pending().todo_id is Some || active_todo is Some) ==> old(self).pending().secs < i64::MAX,
        ensures
            final(self).pending() == credited(old(self).pending(), active_todo),
            final(self).timer() == old(self).timer(),
            final(self).interruptions() == old(self).interruptions(),
    {
        proof { use_type_invariant(&*self); }
        if self.pending.todo_id.is_none() {
            self.pending.todo_id = active_todo;
        }
        if self.pending.todo_id.is_some() {
            self.pending.secs = self.pending.secs + 1;
        }
    }

    /// After a work phase ran out: the pending seconds are handed back as a
    /// completed chunk carrying the phase's interruptions, which start over.
    pub fn complete_work_session(&mut self) -> (r: Option<FocusRecord>)
        requires
        ensures
            r == flush_of(old(self).pending(), true, old(self).interruptions()),
            final(self).pending() == empty_pending(),
            final(self).interruptions() == 0,
            final(self).timer() == old(self).timer(),
    {
        proof { use_type_invariant(&*self); }
        let interruptions = self.phase_interruptions;
        self.phase_interruptions = 0;
        self.take_pending(true, interruptions)
    }
}

/// The tray title: the remaining time while the timer runs, nothing otherwise.
pub fn tray_title(snapshot: &TimerState) -> (t: Option<String>)
    ensures
        snapshot.is_running ==> t is Some && t->0@ == mm_ss(snapshot.remaining_secs as nat),
        !snapshot.is_running ==> t is None,
{
    if snapshot.is_running {
        Some(format_mm_ss(snapshot.remaining_secs))
    } else {
        None
    }
}

/// Pausing never loses work time: the seconds pending before the pause come
/// back as a record, and none stay pending.
pub proof fn lemma_pause_hands_back_pending(pending: PendingFocus)
    requires
        pending.todo_id is None ==> pending.secs == 0,
        pending.secs >= 0,
    ensures
        pending.secs > 0 ==> flush_of(pending, false, 0) == Some(
            (FocusRecord { todo_id: pending.todo_id->0, secs: pending.secs, completed: false, interruptions: 0 }),
        ),
        pending.secs == 0 ==> flush_of(pending, false, 0) is None,
{
}

/// Work is recorded once: after a pause, a reset, a switch of todo or a
/// completed session nothing is pending, so the next of these hands back no record.
pub proof fn lemma_flush_after_flush_is_empty(completed: bool, interruptions: i64)
    ensures
        flush_of(empty_pending(), completed, interruptions) is None,
{
}

/// A running work phase with one second left completes on the next tick:
/// the session count grows and a break begins, stopped at its full length.
pub proof fn lemma_last_second_ends_work(s: TimerState)
    requires
        s.wf(),
        s.is_running,
        s.phase == TimerPhase::Work,
        s.remaining_secs == 1,
        s.completed_work_sessions < u32::MAX,
    ensures
        clock_after_second(s).completed_work_sessions == s.completed_work_sessions + 1,
        clock_after_second(s).phase != TimerPhase::Work,
        !clock_after_second(s).is_running,
        clock_after_second(s).remaining_secs == phase_secs(s.settings, clock_after_second(s).phase),
        clock_after_second(s).wf(),
{
}

/// An interruption is counted only while the countdown runs a work phase:
/// pausing, or switching the todo, while the timer is stopped or in a break
/// counts nothing, and doing so during a running work phase counts one.
pub proof fn lemma_interruption_only_while_working(s: TimerState)
    ensures
        !s.is_running ==> interruption_of(s) == 0,
        s.phase != TimerPhase::Work ==> interruption_of(s) == 0,
        s.is_running && s.phase == TimerPhase::Work ==> interruption_of(s) == 1,
{
}

/// One tick of the clock: a stopped timer stays as it is; a running one with
/// more than a second left loses one second; a running one on its last second
/// (or already at zero) ends its phase: the next phase starts stopped at its
/// full length, and a work phase counts as one more completed session.
pub proof fn lemma_tick(s: TimerState)
    ensures
        !s.is_running ==> clock_after_second(s) == s,
        s.is_running && s.remaining_secs > 1
            ==> clock_after_second(s) == (TimerState { remaining_secs: (s.remaining_secs - 1) as u32, ..s }),
        s.is_running && s.remaining_secs <= 1 ==> {
            let phase = next_phase(s.phase, s.completed_work_sessions as int, s.settings.sessions_before_long_break as int);
            clock_after_second(s) == (TimerState {
                phase,
                remaining_secs: phase_secs(s.settings, phase) as u32,
                is_running: false,
                completed_work_sessions: if s.phase == TimerPhase::Work {
                    (s.completed_work_sessions + 1) as u32
                } else {
                    s.completed_work_sessions
                },
                settings: s.settings,
            })
        },
{
}

/// A stopped timer does not move.
pub proof fn lemma_stopped_clock_is_still(s: TimerState)
    requires
        !s.is_running,
    ensures
        clock_after_second(s) == s,
{
}

/// A running timer that is not on its last second loses exactly one second
/// and keeps its phase.
pub proof fn lemma_running_clock_counts_down(s: TimerState)
    requires
        s.is_running,
        s.remaining_secs > 1,
    ensures
        clock_after_second(s) == (TimerState { remaining_secs: (s.remaining_secs - 1) as u32, ..s }),
{
}

} // verus!
