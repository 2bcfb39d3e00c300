//! The timer core.
//!
//! A [`Pomodoro`] is a pure state machine over three phases — stopped,
//! running, paused — that accumulates the whole seconds spent paused and can
//! report how long it has been actively running. It reads no clock: every
//! operation takes the current instant as an argument, as a number of whole
//! seconds on the caller's clock, so the behaviour is deterministic and fully
//! captured by the transition functions below.
//!
//! Two policy choices are deliberate and pinned by the contracts:
//! - on `stop`, the start instant and the folded paused seconds are retained
//!   in the value, but the next `start` out of the stopped phase begins a
//!   fresh run and resets both, so no paused time leaks from one run into
//!   the next;
//! - instants that run backwards never make any quantity negative: a pause
//!   interval and the reported elapsed time both floor at zero, so the
//!   folded paused seconds never decrease while the timer is in use.

use vstd::prelude::*;

verus! {

/// The externally visible status of a timer.
#[derive(Clone, Copy, Debug, PartialEq, Eq, Structural)]
pub enum PomodoroStatus {
    Running,
    Paused,
    Stopped,
}

/// The one failure a timer can report: elapsed time was queried while the
/// timer is stopped or was never started, so no elapsed time is defined.
#[derive(Clone, Copy, Debug, PartialEq, Eq, Structural)]
pub struct NotRunning;

/// The internal phase. The instant at which the timer was paused exists
/// exactly while the timer is paused, so a paused timer without a pause
/// instant cannot be represented at all.
#[derive(Clone, Copy)]
enum Phase {
    Stopped,
    Running,
    Paused { paused_at: u64 },
}

/// A focus timer.
///
/// All instants are whole seconds on the caller's clock. `started_at` is set
/// when a run begins out of the stopped phase and is retained until the next
/// such start; `paused_seconds` is the total of the paused intervals folded
/// in so far during the current run.
pub struct Pomodoro {
    phase: Phase,
    started_at: Option<u64>,
    paused_seconds: u64,
}

/// The mathematical model of a timer: its status, the instant the current
/// run started (if any), the paused seconds folded in so far, and the
/// instant of the current pause (exactly while paused).
pub struct PomodoroView {
    pub status: PomodoroStatus,
    pub started_at: Option<u64>,
    pub paused_seconds: u64,
    pub paused_at: Option<u64>,
}

/// A timer as it is first created: stopped, never started, nothing paused.
pub open spec fn initial_view() -> PomodoroView {
    PomodoroView {
        status: PomodoroStatus::Stopped,
        started_at: None,
        paused_seconds: 0,
        paused_at: None,
    }
}

/// A model is well formed when it records a pause instant exactly while it
/// is paused. Every reachable timer value is well formed.
pub open spec fn view_wf(v: PomodoroView) -> bool {
    (v.paused_at is Some) <==> (v.status is Paused)
}

/// The whole seconds a pause that began at `paused_at` has lasted by `now`,
/// floored at zero if the supplied instants run backwards.
pub open spec fn paused_delta(paused_at: u64, now: u64) -> u64 {
    if paused_at <= now {
        (now - paused_at) as u64
    } else {
        0
    }
}

/// Addition on accumulated seconds, capped at the largest representable
/// value so that folding a pause is total.
pub open spec fn cap_add(a: u64, b: u64) -> u64 {
    if a + b <= u64::MAX {
        (a + b) as u64
    } else {
        u64::MAX
    }
}

/// What `start` does, by current status:
/// - stopped: a fresh run begins at `now` and the paused seconds reset to
///   zero (a previous run's pauses do not leak into the new run);
/// - running: nothing (starting a running timer is idempotent);
/// - paused: the pause interval ending at `now` is folded into the paused
///   seconds and the timer runs again.
pub open spec fn start_transition(v: PomodoroView, now: u64) -> PomodoroView {
    match v.status {
        PomodoroStatus::Stopped => PomodoroView {
            status: PomodoroStatus::Running,
            started_at: Some(now),
            paused_seconds: 0,
            paused_at: None,
        },
        PomodoroStatus::Running => v,
        PomodoroStatus::Paused => PomodoroView {
            status: PomodoroStatus::Running,
            started_at: v.started_at,
            paused_seconds: match v.paused_at {
                Some(p) => cap_add(v.paused_seconds, paused_delta(p, now)),
                None => v.paused_seconds,
            },
            paused_at: None,
        },
    }
}

/// What `pause` does: unconditionally enter the paused phase and record
/// `now` as the pause instant, whatever the prior status was. Re-pausing
/// overwrites the pause instant and so restarts the pause clock.
pub open spec fn pause_transition(v: PomodoroView, now: u64) -> PomodoroView {
    PomodoroView {
        status: PomodoroStatus::Paused,
        started_at: v.started_at,
        paused_seconds: v.paused_seconds,
        paused_at: Some(now),
    }
}

/// What `stop` does: enter the stopped phase. The start instant and the
/// paused seconds are retained until the next start out of stopped, which
/// begins a fresh run and resets them.
pub open spec fn stop_transition(v: PomodoroView) -> PomodoroView {
    PomodoroView {
        status: PomodoroStatus::Stopped,
        started_at: v.started_at,
        paused_seconds: v.paused_seconds,
        paused_at: None,
    }
}

/// Elapsed time is defined exactly when a run exists: the timer has been
/// started and is not stopped.
pub open spec fn elapsed_defined(v: PomodoroView) -> bool {
    v.started_at is Some && v.status !is Stopped
}

/// The instant an elapsed-time query measures up to: frozen at the pause
/// instant while paused, the supplied `now` otherwise.
pub open spec fn reference_instant(v: PomodoroView, now: u64) -> u64 {
    if v.status is Paused {
        match v.paused_at {
            Some(p) => p,
            None => now,
        }
    } else {
        now
    }
}

/// The elapsed working seconds: the span from the start instant to the
/// reference instant, minus the paused seconds folded in so far, floored at
/// zero if the supplied instants run backwards.
pub open spec fn elapsed_seconds(v: PomodoroView, now: u64) -> u64 {
    match v.started_at {
        Some(s) => {
            let r = reference_instant(v, now);
            if s <= r && v.paused_seconds <= r - s {
                (r - s - v.paused_seconds) as u64
            } else {
                0
            }
        },
        None => 0,
    }
}

impl View for Pomodoro {
    type V = PomodoroView;

    closed spec fn view(&self) -> PomodoroView {
        PomodoroView {
            status: match self.phase {
                Phase::Stopped => PomodoroStatus::Stopped,
                Phase::Running => PomodoroStatus::Running,
                Phase::Paused { .. } => PomodoroStatus::Paused,
            },
            started_at: self.started_at,
            paused_seconds: self.paused_seconds,
            paused_at: match self.phase {
                Phase::Paused { paused_at } => Some(paused_at),
                _ => None,
            },
        }
    }
}

impl Pomodoro {
    /// A fresh timer: stopped, never started, no paused seconds.
    pub fn new() -> (t: Pomodoro)
        ensures
            t@ == initial_view(),
    {
        Pomodoro { phase: Phase::Stopped, started_at: None, paused_seconds: 0 }
    }

    /// The current status, read-only.
    pub fn status(&self) -> (s: PomodoroStatus)
        ensures
            s == self@.status,
    {
        match self.phase {
            Phase::Stopped => PomodoroStatus::Stopped,
            Phase::Running => PomodoroStatus::Running,
            Phase::Paused { .. } => PomodoroStatus::Paused,
        }
    }

    /// Start or resume the timer at instant `now`. Always succeeds; the
    /// effect on each prior status is exactly [`start_transition`].
    pub fn start(&mut self, now: u64)
        ensures
            final(self)@ == start_transition(old(self)@, now),
    {
        match self.phase {
            Phase::Stopped => {
                self.started_at = Some(now);
                self.paused_seconds = 0;
                self.phase = Phase::Running;
            },
            Phase::Running => {},
            Phase::Paused { paused_at } => {
                let delta: u64 = if paused_at <= now {
                    now - paused_at
                } else {
                    0
                };
                self.paused_seconds = if delta <= u64::MAX - self.paused_seconds {
                    self.paused_seconds + delta
                } else {
                    u64::MAX
                };
                self.phase = Phase::Running;
            },
        }
    }

    /// Pause the timer at instant `now`, whatever its prior status. Always
    /// succeeds; the effect is exactly [`pause_transition`].
    pub fn pause(&mut self, now: u64)
        ensures
            final(self)@ == pause_transition(old(self)@, now),
    {
        self.phase = Phase::Paused { paused_at: now };
    }

    /// Stop the timer. Always succeeds; the effect is exactly
    /// [`stop_transition`].
    pub fn stop(&mut self)
        ensures
            final(self)@ == stop_transition(old(self)@),
    {
        self.phase = Phase::Stopped;
    }

    /// The elapsed working time at instant `now`, in whole seconds.
    ///
    /// Fails with [`NotRunning`] exactly when no run exists (the timer is
    /// stopped or was never started). While paused, the result is frozen at
    /// the pause instant and `now` is ignored.
    pub fn elapsed_time(&self, now: u64) -> (r: Result<u64, NotRunning>)
        ensures
            r is Ok <==> elapsed_defined(self@),
            r matches Ok(d) ==> d == elapsed_seconds(self@, now),
    {
        let s: u64 = match self.started_at {
            Some(s) => s,
            None => {
                return Err(NotRunning);
            },
        };
        let reference: u64 = match self.phase {
            Phase::Stopped => {
                return Err(NotRunning);
            },
            Phase::Paused { paused_at } => paused_at,
            Phase::Running => now,
        };
        if s <= reference {
            let raw: u64 = reference - s;
            if self.paused_seconds <= raw {
                Ok(raw - self.paused_seconds)
            } else {
                Ok(0)
            }
        } else {
            Ok(0)
        }
    }
}

impl Default for Pomodoro {
    /// Same as [`Pomodoro::new`]: a fresh, stopped timer.
    fn default() -> (t: Pomodoro)
        ensures
            t@ == initial_view(),
    {
        Pomodoro::new()
    }
}

/// Every timer value is well formed: it records a pause instant exactly
/// while it is paused.
pub proof fn lemma_timer_wf(t: &Pomodoro)
    ensures
        view_wf(t@),
{
}

/// Every transition preserves well-formedness, and the initial model is
/// well formed.
pub proof fn lemma_transitions_preserve_wf(v: PomodoroView, now: u64)
    requires
        view_wf(v),
    ensures
        view_wf(initial_view()),
        view_wf(start_transition(v, now)),
        view_wf(pause_transition(v, now)),
        view_wf(stop_transition(v)),
{
}

/// No time before start: a fresh timer has no elapsed time, so querying it
/// fails with [`NotRunning`] whatever instant is supplied.
pub proof fn lemma_no_time_before_start()
    ensures
        !elapsed_defined(initial_view()),
{
}

/// Monotonic accounting in a single run without pauses: a timer started at
/// `t0` out of the initial state reports exactly `now - t0` elapsed seconds
/// at every instant `now >= t0`.
pub proof fn lemma_single_run_elapsed(t0: u64, now: u64)
    requires
        t0 <= now,
    ensures
        ({
            let v = start_transition(initial_view(), t0);
            &&& v.status is Running
            &&& elapsed_defined(v)
            &&& elapsed_seconds(v, now) == now - t0
        }),
{
}

/// While a timer is paused, the elapsed time does not depend on the query
/// instant at all: it is frozen at the recorded pause instant.
pub proof fn lemma_elapsed_frozen_while_paused(v: PomodoroView, now1: u64, now2: u64)
    requires
        v.status is Paused,
        v.paused_at is Some,
    ensures
        elapsed_seconds(v, now1) == elapsed_seconds(v, now2),
{
}

/// Pausing freezes the elapsed time: after a start at `t0` and a pause at
/// `t1`, the reported elapsed time is `t1 - t0`, the same at every later
/// query instant.
pub proof fn lemma_pause_freezes(t0: u64, t1: u64, now1: u64, now2: u64)
    requires
        t0 <= t1,
    ensures
        ({
            let v = pause_transition(start_transition(initial_view(), t0), t1);
            &&& v.status is Paused
            &&& elapsed_defined(v)
            &&& elapsed_seconds(v, now1) == t1 - t0
            &&& elapsed_seconds(v, now1) == elapsed_seconds(v, now2)
        }),
{
}

/// Resuming folds the paused interval: after start at `t0`, pause at `t1`
/// and resume at `t2`, the elapsed time at `t3` while running again is the
/// whole span minus the paused interval, `(t3 - t0) - (t2 - t1)`.
pub proof fn lemma_resume_folds_pause(t0: u64, t1: u64, t2: u64, t3: u64)
    requires
        t0 <= t1 <= t2 <= t3,
    ensures
        ({
            let v = start_transition(
                pause_transition(start_transition(initial_view(), t0), t1),
                t2,
            );
            &&& v.status is Running
            &&& v.paused_seconds == t2 - t1
            &&& elapsed_defined(v)
            &&& elapsed_seconds(v, t3) == (t3 - t0) - (t2 - t1)
        }),
{
}

/// Starting an already running timer is a no-op: the start instant, the
/// paused seconds and everything else are unchanged.
pub proof fn lemma_start_idempotent_when_running(v: PomodoroView, now: u64)
    requires
        v.status is Running,
    ensures
        start_transition(v, now) == v,
{
}

/// One pause/resume cycle: paused at the first instant, resumed at the
/// second.
pub open spec fn apply_cycles(v: PomodoroView, cycles: Seq<(u64, u64)>) -> PomodoroView
    decreases cycles.len(),
{
    if cycles.len() == 0 {
        v
    } else {
        apply_cycles(
            start_transition(pause_transition(v, cycles[0].0), cycles[0].1),
            cycles.drop_first(),
        )
    }
}

/// The cycles happen in order on the clock: each pause is no earlier than
/// the previous instant, each resume no earlier than its pause, and `end`
/// no earlier than the last resume.
pub open spec fn cycles_ordered(start: u64, cycles: Seq<(u64, u64)>, end: u64) -> bool
    decreases cycles.len(),
{
    if cycles.len() == 0 {
        start <= end
    } else {
        &&& start <= cycles[0].0 <= cycles[0].1
        &&& cycles_ordered(cycles[0].1, cycles.drop_first(), end)
    }
}

/// The total seconds spent paused over a sequence of pause/resume cycles.
pub open spec fn total_paused(cycles: Seq<(u64, u64)>) -> int
    decreases cycles.len(),
{
    if cycles.len() == 0 {
        0
    } else {
        (cycles[0].1 - cycles[0].0) + total_paused(cycles.drop_first())
    }
}

/// Ordered cycles between `start` and `end` pause for a nonnegative total
/// that fits in the span from `start` to `end`.
pub proof fn lemma_total_paused_bounds(start: u64, cycles: Seq<(u64, u64)>, end: u64)
    requires
        cycles_ordered(start, cycles, end),
    ensures
        0 <= total_paused(cycles) <= end - start,
    decreases cycles.len(),
{
    if cycles.len() > 0 {
        lemma_total_paused_bounds(cycles[0].1, cycles.drop_first(), end);
    }
}

/// Running a sequence of ordered pause/resume cycles from a running timer
/// leaves it running, keeps its start instant, and adds exactly the total
/// paused seconds of the cycles.
proof fn lemma_cycles_accumulate_from(v: PomodoroView, start: u64, cycles: Seq<(u64, u64)>, end: u64)
    requires
        v.status is Running,
        v.paused_at is None,
        cycles_ordered(start, cycles, end),
        v.paused_seconds + total_paused(cycles) <= u64::MAX,
    ensures
        ({
            let w = apply_cycles(v, cycles);
            &&& w.status is Running
            &&& w.started_at == v.started_at
            &&& w.paused_at is None
            &&& w.paused_seconds == v.paused_seconds + total_paused(cycles)
        }),
    decreases cycles.len(),
{
    if cycles.len() == 0 {
        assert(apply_cycles(v, cycles) == v);
    } else {
        let a = cycles[0].0;
        let b = cycles[0].1;
        lemma_total_paused_bounds(b, cycles.drop_first(), end);
        let v1 = start_transition(pause_transition(v, a), b);
        lemma_cycles_accumulate_from(v1, b, cycles.drop_first(), end);
    }
}

/// Repeated pause/resume accumulates: a timer started at `t0` and taken
/// through any number of ordered pause/resume cycles is running with its
/// start instant still `t0`, has folded in exactly the total paused seconds
/// of the cycles, and reports `(now - t0) - total_paused` elapsed seconds.
pub proof fn lemma_cycles_accumulate(t0: u64, cycles: Seq<(u64, u64)>, now: u64)
    requires
        cycles_ordered(t0, cycles, now),
    ensures
        ({
            let v = apply_cycles(start_transition(initial_view(), t0), cycles);
            &&& v.status is Running
            &&& v.started_at == Some(t0)
            &&& v.paused_seconds == total_paused(cycles)
            &&& elapsed_defined(v)
            &&& elapsed_seconds(v, now) == (now - t0) - total_paused(cycles)
        }),
{
    let v0 = start_transition(initial_view(), t0);
    lemma_total_paused_bounds(t0, cycles, now);
    lemma_cycles_accumulate_from(v0, t0, cycles, now);
}

/// Stop, then query: after a stop the elapsed time is undefined, while the
/// start instant and the paused seconds are retained in the value; the next
/// start out of stopped begins a fresh run at its own instant with the
/// paused seconds reset to zero, so nothing of the old run leaks into the
/// new run's accounting.
pub proof fn lemma_stop_then_query(v: PomodoroView, t0: u64, now: u64)
    requires
        t0 <= now,
    ensures
        ({
            let s = stop_transition(v);
            &&& !elapsed_defined(s)
            &&& s.started_at == v.started_at
            &&& s.paused_seconds == v.paused_seconds
            &&& start_transition(s, t0) == start_transition(initial_view(), t0)
            &&& elapsed_seconds(start_transition(s, t0), now) == now - t0
        }),
{
}

} // verus!
