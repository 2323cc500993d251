//! Automatic cleaning schedule: every N minutes, at the configured strength,
//! postponed while a full-screen application or game runs.
//!
//! The worker loop itself (sleeping, asking the shell about full-screen
//! state, running the cleaning) belongs to the caller; this state machine
//! decides, from the configuration and the clock, what the loop does next.

use vstd::prelude::*;
use crate::config::AppConfig;

verus! {

/// Nanoseconds per second.
pub const NANOS_PER_SEC: u64 = 1_000_000_000;

/// Pause between two looks at the clock, in seconds.
pub const POLL_SECS: u64 = 5;

/// Pause after a cleaning was postponed for a full-screen application, in seconds.
pub const POSTPONE_SECS: u64 = 10;

/// What the worker loop does next.
#[derive(Clone, Copy, Debug, PartialEq, Eq)]
pub enum SchedulerAction {
    /// Leave the loop: the scheduler was stopped.
    Exit,
    /// Sleep this many seconds, then call `tick` again.
    Sleep(u64),
    /// Ask whether a full-screen application or game runs, then call
    /// `fullscreen_checked` with the answer.
    CheckFullscreen,
    /// Clean at this strength, then call `cleaned` with the time it finished.
    Clean(u32),
}

/// State of the automatic-cleaning schedule.
pub struct Scheduler {
    running: bool,
    last_trigger_ns: u64,
    pending_level: u32,
}

/// Length of the cleaning interval in nanoseconds (at least one minute).
pub open spec fn interval_ns(cfg: AppConfig) -> int {
    (if cfg.interval_minutes < 1 { 1 } else { cfg.interval_minutes as int }) * 60 * NANOS_PER_SEC
}

/// Time elapsed from `from` to `to`, zero if `to` is earlier.
pub open spec fn elapsed_ns(from: u64, to: u64) -> int {
    if to >= from {
        to - from
    } else {
        0
    }
}

/// Whether a cleaning is due at `now_ns`.
pub open spec fn is_due(cfg: AppConfig, last_trigger_ns: u64, now_ns: u64) -> bool {
    elapsed_ns(last_trigger_ns, now_ns) >= interval_ns(cfg)
}

/// The abstract state of a schedule.
#[derive(Clone, Copy)]
pub ghost struct SchedulerState {
    /// Whether the schedule still runs.
    pub running: bool,
    /// When the last cleaning finished (or the schedule started).
    pub last_trigger: u64,
    /// Strength of the cleaning that waits for the full-screen answer.
    pub pending_level: u32,
}

/// The transition of one look at the clock: exit when stopped; when the
/// interval has passed, clean (or first ask about full-screen applications if
/// they are to be avoided, remembering the strength); else wait.
pub open spec fn tick_spec(s: SchedulerState, cfg: AppConfig, now_ns: u64) -> (SchedulerState, SchedulerAction) {
    if !s.running {
        (s, SchedulerAction::Exit)
    } else if !is_due(cfg, s.last_trigger, now_ns) {
        (s, SchedulerAction::Sleep(POLL_SECS))
    } else if cfg.fullscreen_avoid {
        (SchedulerState { pending_level: cfg.level, ..s }, SchedulerAction::CheckFullscreen)
    } else {
        (s, SchedulerAction::Clean(cfg.level))
    }
}

/// The transition on the full-screen answer: postpone while a full-screen
/// application runs (the interval still counts from the last cleaning), else
/// clean at the remembered strength.
pub open spec fn fullscreen_checked_spec(s: SchedulerState, fullscreen: bool) -> (SchedulerState, SchedulerAction) {
    if fullscreen {
        (s, SchedulerAction::Sleep(POSTPONE_SECS))
    } else {
        (s, SchedulerAction::Clean(s.pending_level))
    }
}

/// The transition when a cleaning finished at `now_ns`.
pub open spec fn cleaned_spec(s: SchedulerState, now_ns: u64) -> (SchedulerState, SchedulerAction) {
    (SchedulerState { last_trigger: now_ns, ..s }, SchedulerAction::Sleep(POLL_SECS))
}

impl View for Scheduler {
    type V = SchedulerState;

    closed spec fn view(&self) -> SchedulerState {
        SchedulerState {
            running: self.running,
            last_trigger: self.last_trigger_ns,
            pending_level: self.pending_level,
        }
    }
}

impl Scheduler {
    /// A running schedule whose interval counts from time zero.
    pub fn new() -> (s: Scheduler)
        ensures
            s@ == (SchedulerState { running: true, last_trigger: 0, pending_level: 1 }),
    {
        Scheduler { running: true, last_trigger_ns: 0, pending_level: 1 }
    }

    /// Starts counting the first interval at `now_ns`.
    pub fn start(&mut self, now_ns: u64)
        ensures
            final(self)@ == (SchedulerState { last_trigger: now_ns, ..old(self)@ }),
    {
        self.last_trigger_ns = now_ns;
    }

    /// Stops the schedule: the loop exits at its next look at the clock.
    pub fn stop(&mut self)
        ensures
            final(self)@ == (SchedulerState { running: false, ..old(self)@ }),
    {
        self.running = false;
    }

    /// Whether the schedule still runs.
    pub fn running(&self) -> (r: bool)
        ensures
            r == self@.running,
    {
        self.running
    }

    /// One look at the clock with the current configuration.
    pub fn tick(&mut self, cfg: &AppConfig, now_ns: u64) -> (a: SchedulerAction)
        ensures
            (final(self)@, a) == tick_spec(old(self)@, *cfg, now_ns),
    {
        if !self.running {
            return SchedulerAction::Exit;
        }
        let minutes: u64 = if cfg.interval_minutes < 1 {
            1
        } else {
            cfg.interval_minutes as u64
        };
        assert(minutes * 60 * 1_000_000_000 <= 0xFFFF_FFFF * 60 * 1_000_000_000) by (nonlinear_arith)
            requires minutes <= 0xFFFF_FFFF;
        let interval: u128 = minutes as u128 * 60 * NANOS_PER_SEC as u128;
        let elapsed: u64 = if now_ns >= self.last_trigger_ns {
            now_ns - self.last_trigger_ns
        } else {
            0
        };
        if (elapsed as u128) < interval {
            SchedulerAction::Sleep(POLL_SECS)
        } else if cfg.fullscreen_avoid {
            self.pending_level = cfg.level;
            SchedulerAction::CheckFullscreen
        } else {
            SchedulerAction::Clean(cfg.level)
        }
    }

    /// The answer to `CheckFullscreen`.
    pub fn fullscreen_checked(&mut self, fullscreen: bool) -> (a: SchedulerAction)
        ensures
            (final(self)@, a) == fullscreen_checked_spec(old(self)@, fullscreen),
    {
        if fullscreen {
            SchedulerAction::Sleep(POSTPONE_SECS)
        } else {
            SchedulerAction::Clean(self.pending_level)
        }
    }

    /// A cleaning finished at `now_ns`: the next interval counts from there.
    pub fn cleaned(&mut self, now_ns: u64) -> (a: SchedulerAction)
        ensures
            (final(self)@, a) == cleaned_spec(old(self)@, now_ns),
    {
        self.last_trigger_ns = now_ns;
        SchedulerAction::Sleep(POLL_SECS)
    }
}

/// A stopped schedule never cleans again: every look at the clock exits and
/// leaves the state as it was.
pub proof fn law_stopped_schedule_exits(s: SchedulerState, cfg: AppConfig, now_ns: u64)
    requires
        !s.running,
    ensures
        tick_spec(s, cfg, now_ns) == (s, SchedulerAction::Exit),
{
}

/// No cleaning (and no full-screen question) is started before the interval
/// has passed since the last cleaning, and a started cleaning has the
/// configured strength.
pub proof fn law_no_cleaning_before_interval(s: SchedulerState, cfg: AppConfig, now_ns: u64)
    ensures
        tick_spec(s, cfg, now_ns).1 is Clean || tick_spec(s, cfg, now_ns).1 is CheckFullscreen
            ==> s.running && elapsed_ns(s.last_trigger, now_ns) >= interval_ns(cfg),
        tick_spec(s, cfg, now_ns).1 is Clean ==> tick_spec(s, cfg, now_ns).1 == SchedulerAction::Clean(
            cfg.level,
        ),
{
}

/// Right after a cleaning finished at `t`, the schedule waits until the
/// interval has passed again.
pub proof fn law_cleaning_restarts_interval(s: SchedulerState, cfg: AppConfig, t: u64, now_ns: u64)
    requires
        s.running,
        t <= now_ns,
        now_ns - t < interval_ns(cfg),
    ensures
        tick_spec(cleaned_spec(s, t).0, cfg, now_ns).1 == SchedulerAction::Sleep(POLL_SECS),
{
}

/// A cleaning postponed for a full-screen application stays due: with the
/// same configuration, every later look at the clock asks again (or cleans),
/// so the cleaning follows as soon as the application has ended.
pub proof fn law_postponed_cleaning_stays_due(
    s: SchedulerState,
    cfg: AppConfig,
    now_ns: u64,
    later_ns: u64,
)
    requires
        now_ns <= later_ns,
        tick_spec(s, cfg, now_ns).1 == SchedulerAction::CheckFullscreen,
    ensures
        ({
            let asked = tick_spec(s, cfg, now_ns).0;
            let postponed = fullscreen_checked_spec(asked, true);
            &&& postponed.1 == SchedulerAction::Sleep(POSTPONE_SECS)
            &&& tick_spec(postponed.0, cfg, later_ns).1 == SchedulerAction::CheckFullscreen
            &&& fullscreen_checked_spec(tick_spec(postponed.0, cfg, later_ns).0, false).1
                == SchedulerAction::Clean(cfg.level)
        }),
{
}

/// A running schedule waits, looking at the clock again every 5 seconds,
/// until the configured number of minutes (at least one) has passed since the
/// last cleaning; from then on it cleans at the configured strength, first
/// asking about full-screen applications (and remembering the strength) when
/// they are to be avoided.
pub proof fn law_schedule_interval(s: SchedulerState, cfg: AppConfig, now_ns: u64)
    requires
        s.running,
    ensures
        ({
            let minutes: int = if cfg.interval_minutes == 0 { 1 } else { cfg.interval_minutes as int };
            let elapsed: int = if now_ns >= s.last_trigger { now_ns - s.last_trigger } else { 0 };
            &&& elapsed < minutes * 60 * 1_000_000_000 ==> tick_spec(s, cfg, now_ns) == (
                s,
                SchedulerAction::Sleep(5),
            )
            &&& elapsed >= minutes * 60 * 1_000_000_000 && !cfg.fullscreen_avoid ==> tick_spec(
                s,
                cfg,
                now_ns,
            ) == (s, SchedulerAction::Clean(cfg.level))
            &&& elapsed >= minutes * 60 * 1_000_000_000 && cfg.fullscreen_avoid ==> tick_spec(
                s,
                cfg,
                now_ns,
            ) == (
                SchedulerState { running: true, last_trigger: s.last_trigger, pending_level: cfg.level },
                SchedulerAction::CheckFullscreen,
            )
        }),
{
}

/// While a full-screen application runs the cleaning is put off by 10
/// seconds with nothing changed; otherwise the remembered strength is cleaned.
/// A finished cleaning restarts the interval at its time and polls again in
/// 5 seconds, leaving everything else as it was.
pub proof fn law_answers_and_cleanings(s: SchedulerState, fullscreen: bool, t: u64)
    ensures
        fullscreen ==> fullscreen_checked_spec(s, fullscreen) == (s, SchedulerAction::Sleep(10)),
        !fullscreen ==> fullscreen_checked_spec(s, fullscreen) == (s, SchedulerAction::Clean(s.pending_level)),
        cleaned_spec(s, t) == (
            SchedulerState { running: s.running, last_trigger: t, pending_level: s.pending_level },
            SchedulerAction::Sleep(5),
        ),
{
}

} // verus!
