use crate::clock::{rest_text, span_text};
use crate::display::{DisplayGeometry, Geometry, Rect};
use crate::error::TimerError;
use crate::event::ControlEvent;
use crate::settings::Settings;
use vstd::prelude::*;

verus! {

/// Which overlay the user sees.
#[derive(Clone, Copy, Debug, PartialEq, Eq, Structural)]
pub enum Phase {
    /// Working: the small widget counts up.
    Counting,
    /// Resting: the screen is covered and a countdown runs.
    Blocking,
    /// The rest is over; the cover stays until the user acknowledges it.
    BlockEnd,
}

/// The durations of one session. A zero anywhere is malformed.
#[derive(Clone, Copy, Debug, PartialEq, Eq, Structural)]
pub struct TimerConfig {
    pub work_duration_secs: u32,
    pub rest_duration_secs: u32,
    /// How many emergency-exit presses end a rest early.
    pub escape_threshold: u32,
}

/// Everything that changes while a session runs.
#[derive(Clone, Copy, Debug, PartialEq, Eq)]
pub struct SessionState {
    pub phase: Phase,
    /// When the current phase began. A resume moves it forward by the time
    /// spent paused.
    pub phase_started_at: u64,
    /// When the count was frozen; only ever set while counting.
    pub paused_at: Option<u64>,
    /// Emergency-exit presses in the current rest; zero outside of one.
    pub escape_press_count: u32,
    /// The second display that is covered during a rest, if any.
    pub secondary_display: Option<DisplayGeometry>,
}

/// What the overlay host has to show after a tick.
#[derive(Debug)]
pub struct RenderInstruction {
    /// The phase the machine is in after this tick.
    pub phase: Phase,
    /// The text of the frame this tick evaluated: when a phase runs out in
    /// this very tick, this is still the last text of the phase that ended.
    pub display_text: String,
    /// The text for the secondary overlay, under the same rule.
    pub secondary_display_text: Option<String>,
    /// Where the primary overlay goes in `phase`.
    pub primary_layout: Rect,
    /// Where the secondary overlay goes in `phase`, if there is one.
    pub secondary_layout: Option<Rect>,
    /// Whether to warn that a few more presses will end the rest.
    pub escape_warning: bool,
}

impl TimerConfig {
    /// All three values are positive.
    pub open spec fn valid(&self) -> bool {
        self.work_duration_secs > 0 && self.rest_duration_secs > 0 && self.escape_threshold > 0
    }

    /// Checks and builds a configuration. Any zero is refused.
    pub fn new(work_duration_secs: u32, rest_duration_secs: u32, escape_threshold: u32) -> (config:
        Result<TimerConfig, TimerError>)
        ensures
            match config {
                Ok(c) => c.valid() && c == (TimerConfig {
                    work_duration_secs,
                    rest_duration_secs,
                    escape_threshold,
                }),
                Err(e) => e == TimerError::Configuration && (work_duration_secs == 0
                    || rest_duration_secs == 0 || escape_threshold == 0),
            },
    {
        if work_duration_secs == 0 || rest_duration_secs == 0 || escape_threshold == 0 {
            Err(TimerError::Configuration)
        } else {
            Ok(TimerConfig { work_duration_secs, rest_duration_secs, escape_threshold })
        }
    }

    /// The configuration that stored settings ask for, checked.
    pub fn from_settings(settings: &Settings) -> (config: Result<TimerConfig, TimerError>)
        ensures
            match config {
                Ok(c) => c.valid() && c == (TimerConfig {
                    work_duration_secs: settings.work_secs,
                    rest_duration_secs: settings.rest_secs,
                    escape_threshold: settings.escape_count,
                }),
                Err(e) => e == TimerError::Configuration && (settings.work_secs == 0
                    || settings.rest_secs == 0 || settings.escape_count == 0),
            },
    {
        TimerConfig::new(settings.work_secs, settings.rest_secs, settings.escape_count)
    }

    /// Whether all three values are positive.
    pub fn is_valid(&self) -> (ok: bool)
        ensures
            ok == self.valid(),
    {
        self.work_duration_secs > 0 && self.rest_duration_secs > 0 && self.escape_threshold > 0
    }
}

/// A session that starts counting at `now`.
pub open spec fn counting_from(now: u64) -> SessionState {
    SessionState {
        phase: Phase::Counting,
        phase_started_at: now,
        paused_at: None,
        escape_press_count: 0,
        secondary_display: None,
    }
}

/// The invariant of a session under a configuration.
pub open spec fn well_formed(cfg: TimerConfig, s: SessionState) -> bool {
    &&& cfg.valid()
    &&& match s.paused_at {
        Some(p) => s.phase == Phase::Counting && s.phase_started_at <= p,
        None => true,
    }
    &&& if s.phase == Phase::Blocking {
        s.escape_press_count < cfg.escape_threshold
    } else {
        s.escape_press_count == 0
    }
    &&& s.phase == Phase::Counting ==> s.secondary_display.is_none()
}

/// The later of two timestamps.
pub open spec fn later(a: u64, b: u64) -> u64 {
    if a >= b {
        a
    } else {
        b
    }
}

/// Whole seconds from `from` to `to`; zero when `to` lies before `from`.
pub open spec fn span(from: u64, to: u64) -> nat {
    if to >= from {
        (to - from) as nat
    } else {
        0
    }
}

/// Seconds spent in the current phase as seen at `now`. While paused the
/// value is frozen at the moment of the pause.
pub open spec fn elapsed_secs(s: SessionState, now: u64) -> nat {
    match s.paused_at {
        Some(p) => span(s.phase_started_at, p),
        None => span(s.phase_started_at, now),
    }
}

/// Seconds of rest that are left at `now`, never below zero.
pub open spec fn remaining_secs(cfg: TimerConfig, s: SessionState, now: u64) -> nat {
    let elapsed = elapsed_secs(s, now);
    if elapsed >= cfg.rest_duration_secs {
        0
    } else {
        (cfg.rest_duration_secs - elapsed) as nat
    }
}

/// One emergency-exit press at `now`. Outside a rest it does nothing. In a
/// rest it counts, and the press that reaches the threshold ends the rest.
pub open spec fn press_escape(cfg: TimerConfig, s: SessionState, now: u64) -> SessionState {
    if s.phase != Phase::Blocking {
        s
    } else if s.escape_press_count + 1 >= cfg.escape_threshold {
        counting_from(now)
    } else {
        SessionState { escape_press_count: (s.escape_press_count + 1) as u32, ..s }
    }
}

/// The session after one control event at `now`: a row of the transition
/// table, or the unchanged session where the table has no row.
pub open spec fn apply_event(
    cfg: TimerConfig,
    s: SessionState,
    now: u64,
    event: ControlEvent,
) -> SessionState {
    match (s.phase, event) {
        (Phase::Counting, ControlEvent::Pause) => if s.paused_at.is_none() {
            SessionState { paused_at: Some(later(now, s.phase_started_at)), ..s }
        } else {
            s
        },
        (Phase::Counting, ControlEvent::Resume) => match s.paused_at {
            Some(p) => SessionState {
                phase_started_at: (s.phase_started_at + span(p, now)) as u64,
                paused_at: None,
                ..s
            },
            None => s,
        },
        (Phase::Counting, ControlEvent::Reset) => SessionState {
            phase_started_at: now,
            paused_at: None,
            ..s
        },
        (Phase::Blocking, ControlEvent::EmergencyExitPressed) => press_escape(cfg, s, now),
        (Phase::BlockEnd, ControlEvent::PointerMovedBeyondThreshold) => counting_from(now),
        (Phase::BlockEnd, ControlEvent::Clicked) => counting_from(now),
        _ => s,
    }
}

/// The session after the event of this tick, if there is one.
pub open spec fn after_event(
    cfg: TimerConfig,
    s: SessionState,
    now: u64,
    event: Option<ControlEvent>,
) -> SessionState {
    match event {
        Some(e) => apply_event(cfg, s, now, e),
        None => s,
    }
}

/// The expiry guards: work that ran out starts a rest at `now` and latches
/// the secondary display; a rest that ran out ends.
pub open spec fn expire(
    cfg: TimerConfig,
    s: SessionState,
    now: u64,
    secondary: Option<DisplayGeometry>,
) -> SessionState {
    match s.phase {
        Phase::Counting => if elapsed_secs(s, now) >= cfg.work_duration_secs {
            SessionState {
                phase: Phase::Blocking,
                phase_started_at: now,
                paused_at: None,
                escape_press_count: 0,
                secondary_display: secondary,
            }
        } else {
            s
        },
        Phase::Blocking => if elapsed_secs(s, now) >= cfg.rest_duration_secs {
            SessionState { phase: Phase::BlockEnd, escape_press_count: 0, ..s }
        } else {
            s
        },
        Phase::BlockEnd => s,
    }
}

/// The session after a whole tick: first the event, then the expiry guard
/// of the phase the event left the session in.
pub open spec fn tick_session(
    cfg: TimerConfig,
    s: SessionState,
    now: u64,
    event: Option<ControlEvent>,
    secondary: Option<DisplayGeometry>,
) -> SessionState {
    expire(cfg, after_event(cfg, s, now, event), now, secondary)
}

/// The line on the primary overlay for a session as seen at `now`.
pub open spec fn primary_text(cfg: TimerConfig, s: SessionState, now: u64) -> Seq<char> {
    match s.phase {
        Phase::Counting => span_text(elapsed_secs(s, now)),
        Phase::Blocking => {
            let left = remaining_secs(cfg, s, now);
            rest_text(left / 60, left % 60)
        },
        Phase::BlockEnd => "休息结束，移动鼠标解锁~"@,
    }
}

/// The line on the secondary overlay, where there is one.
pub open spec fn secondary_text(cfg: TimerConfig, s: SessionState, now: u64) -> Option<Seq<char>> {
    if s.phase == Phase::Counting || s.secondary_display.is_none() {
        None
    } else {
        let left = remaining_secs(cfg, s, now);
        if s.phase == Phase::Blocking && left > 0 {
            Some(rest_text(left / 60, left % 60))
        } else {
            Some("休息结束，点击鼠标解锁~"@)
        }
    }
}

/// Whether the rest overlay warns of an imminent emergency exit: once more
/// than half of the presses are in.
pub open spec fn escape_warning(cfg: TimerConfig, s: SessionState) -> bool {
    s.phase == Phase::Blocking && s.escape_press_count > cfg.escape_threshold / 2
}

/// The view of an optional display.
pub open spec fn geometry_of(display: Option<DisplayGeometry>) -> Option<Geometry> {
    match display {
        Some(d) => Some(d@),
        None => None,
    }
}

/// The view of an optional line of text.
pub open spec fn text_of(text: Option<String>) -> Option<Seq<char>> {
    match text {
        Some(t) => Some(t@),
        None => None,
    }
}

} // verus!
