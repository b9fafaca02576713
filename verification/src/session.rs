//! The session state machine: one timed phase (work, short break or long
//! break) counting down second by second, with the rule that picks the next
//! phase when the countdown reaches zero.

use vstd::prelude::*;
use vstd::string::StringExecFns;

verus! {

/// Number of completed work phases after which the break that follows is the
/// long one instead of the short one.  Fixed here at four: every fourth
/// completed work phase earns the long break.
pub const LONG_BREAK_CADENCE: u64 = 4;

/// Default work duration in seconds (25 minutes).
pub const DEFAULT_WORK_SECS: u64 = 1500;

/// Default short-break duration in seconds (5 minutes).
pub const DEFAULT_SHORT_BREAK_SECS: u64 = 300;

/// Default long-break duration in seconds (15 minutes).
pub const DEFAULT_LONG_BREAK_SECS: u64 = 900;

/// Largest minute count that still fits in a `u64` of seconds.
pub const MAX_DURATION_MINS: u64 = 0xffff_ffff_ffff_ffff / 60;

#[derive(Clone, Copy, PartialEq, Eq, Structural, Debug)]
pub enum SessionMode {
    Work,
    ShortBreak,
    LongBreak,
}

/// Text for the fire-and-forget desktop notification that accompanies a
/// phase completion.  The state machine only chooses the two strings; the
/// caller hands them to whatever notifier it has.
pub struct Notification {
    pub title: String,
    pub body: String,
}

pub open spec fn work_complete_title() -> Seq<char> {
    "Work session complete"@
}

pub open spec fn work_complete_body() -> Seq<char> {
    "Time for a break"@
}

pub open spec fn break_over_title() -> Seq<char> {
    "Break over"@
}

pub open spec fn break_over_body() -> Seq<char> {
    "Time to focus"@
}

/// One timed phase with its countdown and the three configured durations,
/// all in whole seconds.
pub struct Session {
    pub mode: SessionMode,
    pub work_secs: u64,
    pub short_break_secs: u64,
    pub long_break_secs: u64,
    pub time_remaining: u64,
    pub total_duration: u64,
    pub is_running: bool,
    pub completed_work_count: u64,
}

impl Session {
    /// The configured duration, in seconds, of a given mode.
    pub open spec fn configured_secs(self, mode: SessionMode) -> u64 {
        match mode {
            SessionMode::Work => self.work_secs,
            SessionMode::ShortBreak => self.short_break_secs,
            SessionMode::LongBreak => self.long_break_secs,
        }
    }

    /// Session invariant: the countdown never exceeds the phase length, the
    /// phase length is the configured duration of the active mode, and the
    /// three configured durations are whole minutes (they are only ever set
    /// in minutes).
    pub open spec fn wf(self) -> bool {
        &&& self.time_remaining <= self.total_duration
        &&& self.total_duration == self.configured_secs(self.mode)
        &&& self.work_secs % 60 == 0
        &&& self.short_break_secs % 60 == 0
        &&& self.long_break_secs % 60 == 0
    }

    /// The work-phase counter after one more work phase completes; it
    /// saturates rather than wraps, so it is monotone.
    pub open spec fn bumped_work_count(self) -> u64 {
        if self.completed_work_count == u64::MAX {
            u64::MAX
        } else {
            (self.completed_work_count + 1) as u64
        }
    }

    /// The deterministic phase-transition rule: a finished break is always
    /// followed by work; a finished work phase is followed by the long break
    /// exactly when the new completion count is a multiple of the cadence.
    pub open spec fn next_mode(self) -> SessionMode {
        match self.mode {
            SessionMode::Work => {
                if self.bumped_work_count() % LONG_BREAK_CADENCE == 0 {
                    SessionMode::LongBreak
                } else {
                    SessionMode::ShortBreak
                }
            },
            SessionMode::ShortBreak => SessionMode::Work,
            SessionMode::LongBreak => SessionMode::Work,
        }
    }

    /// The whole state after a phase transition: the next mode's full
    /// configured duration is loaded and the timer keeps running, so the next
    /// phase begins immediately.
    pub open spec fn after_transition(self) -> Session {
        let m = self.next_mode();
        Session {
            mode: m,
            time_remaining: self.configured_secs(m),
            total_duration: self.configured_secs(m),
            is_running: true,
            completed_work_count: if self.mode is Work {
                self.bumped_work_count()
            } else {
                self.completed_work_count
            },
            ..self
        }
    }

    /// A stopped work session with the default durations: what a fresh
    /// application starts from.
    pub open spec fn spec_default() -> Session {
        Session {
            mode: SessionMode::Work,
            work_secs: DEFAULT_WORK_SECS,
            short_break_secs: DEFAULT_SHORT_BREAK_SECS,
            long_break_secs: DEFAULT_LONG_BREAK_SECS,
            time_remaining: DEFAULT_WORK_SECS,
            total_duration: DEFAULT_WORK_SECS,
            is_running: false,
            completed_work_count: 0u64,
        }
    }

    /// A fresh stopped work session with the default durations.
    pub fn new() -> (s: Session)
        ensures
            s == Session::spec_default(),
            s.wf(),
    {
        Session {
            mode: SessionMode::Work,
            work_secs: DEFAULT_WORK_SECS,
            short_break_secs: DEFAULT_SHORT_BREAK_SECS,
            long_break_secs: DEFAULT_LONG_BREAK_SECS,
            time_remaining: DEFAULT_WORK_SECS,
            total_duration: DEFAULT_WORK_SECS,
            is_running: false,
            completed_work_count: 0,
        }
    }

    /// One second of wall-clock time.  Stopped sessions are untouched; a
    /// running countdown loses one second; a running countdown already at
    /// zero transitions to the next phase and reports the notification text
    /// for the phase that just ended.
    pub fn tick(&mut self) -> (note: Option<Notification>)
        requires
            old(self).wf(),
        ensures
            final(self).wf(),
            tick_rel(*old(self), *final(self), note),
            !old(self).is_running ==> final(self).time_remaining == old(self).time_remaining,
            final(self).completed_work_count >= old(self).completed_work_count,
    {
        if !self.is_running {
            None
        } else if self.time_remaining > 0 {
            self.time_remaining = self.time_remaining - 1;
            None
        } else {
            let note = if self.mode == SessionMode::Work {
                self.completed_work_count = if self.completed_work_count == u64::MAX {
                    u64::MAX
                } else {
                    self.completed_work_count + 1
                };
                if self.completed_work_count % LONG_BREAK_CADENCE == 0 {
                    self.mode = SessionMode::LongBreak;
                } else {
                    self.mode = SessionMode::ShortBreak;
                }
                Notification {
                    title: String::from_str("Work session complete"),
                    body: String::from_str("Time for a break"),
                }
            } else {
                self.mode = SessionMode::Work;
                Notification {
                    title: String::from_str("Break over"),
                    body: String::from_str("Time to focus"),
                }
            };
            let dur = self.configured_duration();
            self.time_remaining = dur;
            self.total_duration = dur;
            Some(note)
        }
    }

    /// The configured duration of the active mode, in seconds.
    pub fn configured_duration(&self) -> (d: u64)
        ensures
            d == self.configured_secs(self.mode),
    {
        match self.mode {
            SessionMode::Work => self.work_secs,
            SessionMode::ShortBreak => self.short_break_secs,
            SessionMode::LongBreak => self.long_break_secs,
        }
    }

    /// Start or pause the countdown.
    pub fn toggle(&mut self)
        requires
            old(self).wf(),
        ensures
            final(self).wf(),
            *final(self) == (Session { is_running: !old(self).is_running, ..*old(self) }),
    {
        self.is_running = !self.is_running;
    }

    /// Switch to another mode; only allowed while stopped.  The countdown is
    /// reset to the new mode's full configured duration.
    pub fn set_mode(&mut self, new_mode: SessionMode)
        requires
            old(self).wf(),
            !old(self).is_running,
        ensures
            final(self).wf(),
            *final(self) == (Session {
                mode: new_mode,
                time_remaining: old(self).configured_secs(new_mode),
                total_duration: old(self).configured_secs(new_mode),
                ..*old(self)
            }),
    {
        self.mode = new_mode;
        let dur = self.configured_duration();
        self.time_remaining = dur;
        self.total_duration = dur;
    }

    /// The session with the active mode's configured duration replaced and
    /// the countdown reset to it.
    pub open spec fn with_current_duration(self, secs: u64) -> Session {
        let s = match self.mode {
            SessionMode::Work => Session { work_secs: secs, ..self },
            SessionMode::ShortBreak => Session { short_break_secs: secs, ..self },
            SessionMode::LongBreak => Session { long_break_secs: secs, ..self },
        };
        Session { time_remaining: secs, total_duration: secs, ..s }
    }

    /// Reconfigure the active mode's duration in minutes; only allowed while
    /// stopped.  The countdown is reset to the new duration.
    pub fn set_duration_for_current_mode(&mut self, minutes: u64)
        requires
            old(self).wf(),
            !old(self).is_running,
            minutes <= MAX_DURATION_MINS,
        ensures
            final(self).wf(),
            *final(self) == old(self).with_current_duration((minutes * 60) as u64),
    {
        let secs = minutes * 60;
        match self.mode {
            SessionMode::Work => self.work_secs = secs,
            SessionMode::ShortBreak => self.short_break_secs = secs,
            SessionMode::LongBreak => self.long_break_secs = secs,
        }
        self.time_remaining = secs;
        self.total_duration = secs;
    }

    /// Reset the current phase to its full configured duration.
    pub fn reset(&mut self)
        requires
            old(self).wf(),
        ensures
            final(self).wf(),
            *final(self) == (Session { time_remaining: old(self).total_duration, ..*old(self) }),
    {
        self.time_remaining = self.total_duration;
    }

    /// How far the phase has advanced, as the exact ratio `r.0 / r.1` with
    /// `0 <= r.0 <= r.1` and `r.1 > 0`; by convention 0 for a zero-length
    /// phase.
    pub open spec fn spec_progress(self) -> (u64, u64) {
        if self.total_duration == 0 {
            (0u64, 1u64)
        } else {
            (((self.total_duration - self.time_remaining) as u64), self.total_duration)
        }
    }

    pub fn progress(&self) -> (r: (u64, u64))
        requires
            self.wf(),
        ensures
            r == self.spec_progress(),
            r.1 > 0,
            r.0 <= r.1,
    {
        if self.total_duration == 0 {
            (0, 1)
        } else {
            (self.total_duration - self.time_remaining, self.total_duration)
        }
    }
}

/// What one second of wall-clock time does to a session: nothing while
/// stopped; one second off a running countdown; a phase transition, with the
/// notification text of the phase that just ended, once a running countdown
/// stands at zero.
pub open spec fn tick_rel(pre: Session, post: Session, note: Option<Notification>) -> bool {
    &&& (!pre.is_running ==> post == pre && note is None)
    &&& (pre.is_running && pre.time_remaining > 0 ==> post == (Session {
        time_remaining: (pre.time_remaining - 1) as u64,
        ..pre
    }) && note is None)
    &&& (pre.is_running && pre.time_remaining == 0 ==> {
        &&& post == pre.after_transition()
        &&& note matches Some(n) && (if pre.mode is Work {
            n.title@ == work_complete_title() && n.body@ == work_complete_body()
        } else {
            n.title@ == break_over_title() && n.body@ == break_over_body()
        })
    })
}

/// `a` is at most `b`, read as the rational numbers `a.0 / a.1` and
/// `b.0 / b.1`.
pub open spec fn ratio_le(a: (u64, u64), b: (u64, u64)) -> bool {
    a.0 * b.1 <= b.0 * a.1
}

/// Law: the countdown of a well-formed session never leaves the phase: it is
/// between zero and the phase's length.  Every operation of the session
/// returns a well-formed session, so this holds in every reachable state.
pub proof fn lemma_countdown_within_phase(s: Session)
    requires
        s.wf(),
    ensures
        0 <= s.time_remaining <= s.total_duration,
{
}

/// Law: progress is 0 at the start of a phase.
pub proof fn lemma_progress_zero_at_phase_start(s: Session)
    requires
        s.wf(),
        s.time_remaining == s.total_duration,
    ensures
        s.spec_progress().0 == 0,
{
}

/// Law: progress is 1 (numerator equals denominator) the instant the
/// countdown of a phase of positive length reaches zero.
pub proof fn lemma_progress_one_at_zero(s: Session)
    requires
        s.wf(),
        s.total_duration > 0,
        s.time_remaining == 0,
    ensures
        s.spec_progress().0 == s.spec_progress().1,
{
}

/// Law: while the timer runs inside one phase, a tick never decreases
/// progress.
pub proof fn lemma_progress_monotone_under_tick(
    pre: Session,
    post: Session,
    note: Option<Notification>,
)
    requires
        pre.wf(),
        pre.is_running,
        pre.time_remaining > 0,
        tick_rel(pre, post, note),
    ensures
        ratio_le(pre.spec_progress(), post.spec_progress()),
{
    let t = pre.total_duration;
    let r = pre.time_remaining;
    assert((t - r) * t <= (t - r + 1) * t) by (nonlinear_arith)
        requires
            0 < r <= t,
    ;
}

/// Law: exactly `LONG_BREAK_CADENCE` consecutive work-phase completions are
/// needed before the long break is scheduled; the completions before it
/// schedule the short break.  `base` is any completion count at which the
/// previous long break was reached (a multiple of the cadence) and `k`
/// numbers the work phases completed since.
pub proof fn lemma_long_break_cadence(s: Session, base: u64, k: u64)
    requires
        s.mode is Work,
        base % LONG_BREAK_CADENCE == 0,
        1 <= k <= LONG_BREAK_CADENCE,
        base + k <= u64::MAX,
        s.completed_work_count == base + k - 1,
    ensures
        s.next_mode() == (if k == LONG_BREAK_CADENCE {
            SessionMode::LongBreak
        } else {
            SessionMode::ShortBreak
        }),
{
    assert(s.bumped_work_count() == base + k);
    let c = LONG_BREAK_CADENCE as int;
    let b = base as int;
    let ki = k as int;
    vstd::arithmetic::div_mod::lemma_add_mod_noop(b, ki, c);
    vstd::arithmetic::div_mod::lemma_mod_twice(ki, c);
    assert((b + ki) % c == ki % c);
}

} // verus!
