//! The pomodoro timer state machine: work sessions alternate with breaks, and
//! every `sessions_before_long_break`-th work session is followed by a long break.

use vstd::prelude::*;
use crate::text::{
    all_digits, dec_digits, digits_value, lemma_dec_digits_len, lemma_dec_digits_value, lemma_zero_pad_value, push_char,
    push_padded, zero_pad,
};

verus! {

#[derive(Debug, Clone, Copy, PartialEq, Eq, Structural)]
pub enum TimerPhase {
    Work,
    ShortBreak,
    LongBreak,
}

#[derive(Debug, Clone, Copy, PartialEq, Eq, Structural)]
pub struct TimerSettings {
    pub work_minutes: u32,
    pub short_break_minutes: u32,
    pub long_break_minutes: u32,
    pub sessions_before_long_break: u32,
}

/// 25 minutes of work, 5 and 15 minute breaks, a long break after every 4th session.
pub open spec fn default_settings() -> TimerSettings {
    TimerSettings {
        work_minutes: 25,
        short_break_minutes: 5,
        long_break_minutes: 15,
        sessions_before_long_break: 4,
    }
}

impl Default for TimerSettings {
    fn default() -> (s: Self)
        ensures
            s == default_settings(),
    {
        TimerSettings {
            work_minutes: 25,
            short_break_minutes: 5,
            long_break_minutes: 15,
            sessions_before_long_break: 4,
        }
    }
}

/// The configured length of `phase`, in minutes.
pub open spec fn phase_minutes(settings: TimerSettings, phase: TimerPhase) -> u32 {
    match phase {
        TimerPhase::Work => settings.work_minutes,
        TimerPhase::ShortBreak => settings.short_break_minutes,
        TimerPhase::LongBreak => settings.long_break_minutes,
    }
}

/// The length of `phase`, in seconds.
pub open spec fn phase_secs(settings: TimerSettings, phase: TimerPhase) -> int {
    phase_minutes(settings, phase) * 60
}

/// The length of `phase` in seconds fits in a `u32`.
pub open spec fn phase_fits(settings: TimerSettings, phase: TimerPhase) -> bool {
    phase_secs(settings, phase) <= u32::MAX
}

/// Every phase's length in seconds fits in a `u32`.
pub open spec fn settings_fit(settings: TimerSettings) -> bool {
    &&& phase_fits(settings, TimerPhase::Work)
    &&& phase_fits(settings, TimerPhase::ShortBreak)
    &&& phase_fits(settings, TimerPhase::LongBreak)
}

/// `u32::is_multiple_of`: `n == 0` divides only zero.
pub open spec fn is_multiple_of(c: int, n: int) -> bool {
    if n == 0 { c == 0 } else { c % n == 0 }
}

/// The phase that follows `phase`, given how many work sessions were completed
/// before it ended and how many sessions earn a long break.
pub open spec fn next_phase(phase: TimerPhase, completed: int, every: int) -> TimerPhase {
    match phase {
        TimerPhase::Work => if is_multiple_of(completed + 1, every) {
            TimerPhase::LongBreak
        } else {
            TimerPhase::ShortBreak
        },
        _ => TimerPhase::Work,
    }
}

impl TimerSettings {
    pub fn duration_secs(&self, phase: TimerPhase) -> (secs: u32)
        requires
            phase_fits(*self, phase),
        ensures
            secs == phase_secs(*self, phase),
    {
        let minutes = match phase {
            TimerPhase::Work => self.work_minutes,
            TimerPhase::ShortBreak => self.short_break_minutes,
            TimerPhase::LongBreak => self.long_break_minutes,
        };
        minutes * 60
    }
}

#[derive(Debug, Clone, Copy, PartialEq, Eq, Structural)]
pub struct TimerState {
    pub phase: TimerPhase,
    pub remaining_secs: u32,
    pub is_running: bool,
    pub completed_work_sessions: u32,
    pub settings: TimerSettings,
}

impl TimerState {
    /// A state that every timer operation keeps: the settings are usable and
    /// the countdown never exceeds the length of the current phase.
    pub open spec fn wf(self) -> bool {
        &&& settings_fit(self.settings)
        &&& self.remaining_secs <= phase_secs(self.settings, self.phase)
    }

    /// A stopped timer at the start of the first work session.
    pub fn new(settings: TimerSettings) -> (s: Self)
        requires
            phase_fits(settings, TimerPhase::Work),
        ensures
            s.phase == TimerPhase::Work,
            s.remaining_secs == phase_secs(settings, TimerPhase::Work),
            !s.is_running,
            s.completed_work_sessions == 0,
            s.settings == settings,
            settings_fit(settings) ==> s.wf(),
    {
        TimerState {
            remaining_secs: settings.duration_secs(TimerPhase::Work),
            phase: TimerPhase::Work,
            is_running: false,
            completed_work_sessions: 0,
            settings,
        }
    }

    /// Ends the current phase and moves to the next: a work session counts as
    /// completed and leads to a short break, or to a long break on every
    /// `sessions_before_long_break`-th session; a break always leads back to work.
    /// The new phase starts stopped, at its full length.
    pub fn advance_phase(&mut self)
        requires
            old(self).phase == TimerPhase::Work ==> old(self).completed_work_sessions < u32::MAX,
            phase_fits(
                old(self).settings,
                next_phase(
                    old(self).phase,
                    old(self).completed_work_sessions as int,
                    old(self).settings.sessions_before_long_break as int,
                ),
            ),
        ensures
            final(self).phase == next_phase(
                old(self).phase,
                old(self).completed_work_sessions as int,
                old(self).settings.sessions_before_long_break as int,
            ),
            final(self).completed_work_sessions == if old(self).phase == TimerPhase::Work {
                old(self).completed_work_sessions + 1
            } else {
                old(self).completed_work_sessions as int
            },
            final(self).remaining_secs == phase_secs(final(self).settings, final(self).phase),
            !final(self).is_running,
            final(self).settings == old(self).settings,
            settings_fit(old(self).settings) ==> final(self).wf(),
    {
        self.phase = match self.phase {
            TimerPhase::Work => {
                self.completed_work_sessions = self.completed_work_sessions + 1;
                let every = self.settings.sessions_before_long_break;
                let multiple = if every == 0 {
                    self.completed_work_sessions == 0
                } else {
                    self.completed_work_sessions % every == 0
                };
                if multiple {
                    TimerPhase::LongBreak
                } else {
                    TimerPhase::ShortBreak
                }
            },
            TimerPhase::ShortBreak | TimerPhase::LongBreak => TimerPhase::Work,
        };
        self.remaining_secs = self.settings.duration_secs(self.phase);
        self.is_running = false;
    }

    /// Restarts the current phase from its full length, stopped.
    pub fn reset_current_phase(&mut self)
        requires
            phase_fits(old(self).settings, old(self).phase),
        ensures
            final(self).remaining_secs == phase_secs(old(self).settings, old(self).phase),
            !final(self).is_running,
            final(self).phase == old(self).phase,
            final(self).completed_work_sessions == old(self).completed_work_sessions,
            final(self).settings == old(self).settings,
            settings_fit(old(self).settings) ==> final(self).wf(),
    {
        self.remaining_secs = self.settings.duration_secs(self.phase);
        self.is_running = false;
    }
}

/// The `mm:ss` rendering of a number of seconds (minutes are not capped at 99).
pub open spec fn mm_ss(total_seconds: nat) -> Seq<char> {
    zero_pad(dec_digits(total_seconds / 60), 2) + seq![':'] + zero_pad(dec_digits(total_seconds % 60), 2)
}

/// `mm:ss` reads back: minutes of at least two digits and seconds of exactly
/// two around the colon, seconds below 60, minutes times 60 plus seconds
/// giving the count back, and five characters for counts below 6000.
pub proof fn lemma_mm_ss_reads_back(total_seconds: nat)
    ensures ({
        let mins = zero_pad(dec_digits(total_seconds / 60), 2);
        let secs = zero_pad(dec_digits(total_seconds % 60), 2);
        &&& mm_ss(total_seconds) == mins + seq![':'] + secs
        &&& mins.len() >= 2 && secs.len() == 2
        &&& all_digits(mins) && all_digits(secs)
        &&& digits_value(secs) < 60
        &&& digits_value(mins) * 60 + digits_value(secs) == total_seconds
        &&& total_seconds < 6000 ==> mm_ss(total_seconds).len() == 5
    }),
{
    let m = total_seconds / 60;
    let s = total_seconds % 60;
    lemma_dec_digits_value(m);
    lemma_dec_digits_value(s);
    lemma_zero_pad_value(dec_digits(m), 2);
    lemma_zero_pad_value(dec_digits(s), 2);
    lemma_dec_digits_len(m);
    lemma_dec_digits_len(s);
}

/// Renders remaining seconds as `mm:ss`.
pub fn format_mm_ss(total_seconds: u32) -> (s: String)
    ensures
        s@ == mm_ss(total_seconds as nat),
{
    let mut out = String::new();
    push_padded(&mut out, (total_seconds / 60) as u64, 2);
    push_char(&mut out, ':');
    push_padded(&mut out, (total_seconds % 60) as u64, 2);
    out
}

/// The Japanese name of each phase, shown by the front end.
pub open spec fn phase_name(phase: TimerPhase) -> Seq<char> {
    match phase {
        TimerPhase::Work => "作業"@,
        TimerPhase::ShortBreak => "短い休憩"@,
        TimerPhase::LongBreak => "長い休憩"@,
    }
}

pub fn phase_label(phase: TimerPhase) -> (s: &'static str)
    ensures
        s@ == phase_name(phase),
{
    match phase {
        TimerPhase::Work => "作業",
        TimerPhase::ShortBreak => "短い休憩",
        TimerPhase::LongBreak => "長い休憩",
    }
}

/// A break always leads back to work; a work session leads to the long break
/// exactly when the sessions completed with it are a multiple of
/// `sessions_before_long_break`, and with that count at zero never.
pub proof fn lemma_phase_cycle(completed: int, every: int)
    requires
        completed >= 0,
        every >= 0,
    ensures
        next_phase(TimerPhase::ShortBreak, completed, every) == TimerPhase::Work,
        next_phase(TimerPhase::LongBreak, completed, every) == TimerPhase::Work,
        every > 0 ==> (next_phase(TimerPhase::Work, completed, every) == TimerPhase::LongBreak
            <==> (completed + 1) % every == 0),
        every == 0 ==> next_phase(TimerPhase::Work, completed, every) == TimerPhase::ShortBreak,
        next_phase(TimerPhase::Work, completed, every) != TimerPhase::Work,
{
}

/// With the default settings the timer cycles work, short break, work, ...
/// and the fourth completed work session leads to a long break.
pub proof fn lemma_default_cycle(completed: int)
    requires
        completed >= 0,
    ensures
        next_phase(TimerPhase::Work, completed, 4) == (if (completed + 1) % 4 == 0 {
            TimerPhase::LongBreak
        } else {
            TimerPhase::ShortBreak
        }),
        next_phase(TimerPhase::ShortBreak, completed, 4) == TimerPhase::Work,
        next_phase(TimerPhase::LongBreak, completed, 4) == TimerPhase::Work,
{
}

} // verus!
