use crate::clock::{fmt_count, fmt_span};
use crate::display::{layout, resolve, DisplayGeometry, LayoutPlan};
use crate::error::TimerError;
use crate::event::{ControlEvent, EventSignal};
use crate::timer::{
    after_event, apply_event, counting_from, elapsed_secs, escape_warning, expire, geometry_of,
    press_escape, primary_text, remaining_secs, secondary_text, text_of, tick_session, well_formed,
    Phase, RenderInstruction, SessionState, TimerConfig,
};
use vstd::prelude::*;
use vstd::string::StringExecFns;

verus! {

/// The timer of one running session. It owns the session state and is the
/// only one to change it; producers of control events reach it through an
/// [`EventSignal`] and nothing else.
#[derive(Debug)]
pub struct TimerStateMachine {
    config: TimerConfig,
    session: SessionState,
    primary: DisplayGeometry,
}

impl TimerStateMachine {
    #[verifier::type_invariant]
    spec fn sound(&self) -> bool {
        well_formed(self.config, self.session)
    }

    /// The configuration this machine runs under.
    pub closed spec fn config(&self) -> TimerConfig {
        self.config
    }

    /// The session state.
    pub closed spec fn session(&self) -> SessionState {
        self.session
    }

    /// The primary display the overlays are laid out on.
    pub closed spec fn primary(&self) -> DisplayGeometry {
        self.primary
    }

    /// Starts a session that counts from `now`, not paused. A malformed
    /// configuration is refused.
    pub fn new(config: TimerConfig, primary: DisplayGeometry, now: u64) -> (machine: Result<
        TimerStateMachine,
        TimerError,
    >)
        ensures
            match machine {
                Ok(m) => {
                    &&& config.valid()
                    &&& m.config() == config
                    &&& m.primary() == primary
                    &&& m.session() == counting_from(now)
                },
                Err(e) => !config.valid() && e == TimerError::Configuration,
            },
    {
        if !config.is_valid() {
            return Err(TimerError::Configuration);
        }
        Ok(
            TimerStateMachine {
                config,
                session: SessionState {
                    phase: Phase::Counting,
                    phase_started_at: now,
                    paused_at: None,
                    escape_press_count: 0,
                    secondary_display: None,
                },
                primary,
            },
        )
    }

    /// The phase the machine is in.
    pub fn current_phase(&self) -> (phase: Phase)
        ensures
            phase == self.session().phase,
    {
        self.session.phase
    }

    /// Whether the work count is frozen.
    pub fn is_paused(&self) -> (paused: bool)
        ensures
            paused == self.session().paused_at.is_some(),
            paused ==> self.session().phase == Phase::Counting,
    {
        proof {
            use_type_invariant(self);
        }
        self.session.paused_at.is_some()
    }

    /// A copy of the session state. It always satisfies the invariant.
    pub fn snapshot(&self) -> (state: SessionState)
        ensures
            state == self.session(),
            well_formed(self.config(), state),
    {
        proof {
            use_type_invariant(self);
        }
        self.session
    }

    /// The configuration this machine runs under.
    pub fn current_config(&self) -> (config: TimerConfig)
        ensures
            config == self.config(),
            config.valid(),
    {
        proof {
            use_type_invariant(self);
        }
        self.config
    }

    /// The primary display the overlays are laid out on.
    pub fn primary_display(&self) -> (display: DisplayGeometry)
        ensures
            display == self.primary(),
    {
        self.primary
    }

    /// Seconds spent in the current phase as seen at `now`: `now` minus the
    /// start of the phase, frozen while paused, zero if the clock ran
    /// backwards.
    pub fn elapsed(&self, now: u64) -> (secs: u64)
        ensures
            secs == elapsed_secs(self.session(), now),
    {
        let end = match self.session.paused_at {
            Some(p) => p,
            None => now,
        };
        if end >= self.session.phase_started_at {
            end - self.session.phase_started_at
        } else {
            0
        }
    }

    /// Seconds of rest left at `now`; zero once the rest is over.
    pub fn remaining(&self, now: u64) -> (secs: u32)
        ensures
            secs == remaining_secs(self.config(), self.session(), now),
    {
        let elapsed = self.elapsed(now);
        if elapsed >= self.config.rest_duration_secs as u64 {
            0
        } else {
            self.config.rest_duration_secs - (elapsed as u32)
        }
    }

    /// Whether the work time has run out at `now`, so that a tick that
    /// finds the session counting will start a rest.
    pub fn rest_is_due(&self, now: u64) -> (due: bool)
        ensures
            due == (self.session().phase == Phase::Counting && elapsed_secs(self.session(), now)
                >= self.config().work_duration_secs),
    {
        self.session.phase == Phase::Counting && self.elapsed(now)
            >= self.config.work_duration_secs as u64
    }

    /// Where the overlays go in the current phase.
    pub fn current_layout(&self) -> (plan: LayoutPlan)
        ensures
            plan == layout(
                self.session().phase,
                self.primary()@,
                geometry_of(self.session().secondary_display),
            ),
    {
        match self.session.secondary_display {
            Some(d) => resolve(self.session.phase, &self.primary, Some(&d)),
            None => resolve(self.session.phase, &self.primary, None),
        }
    }

    /// Counts one emergency-exit press at `now`. Returns whether the press
    /// ended the rest.
    pub fn handle_escape(&mut self, now: u64) -> (exited: bool)
        ensures
            final(self).config() == old(self).config(),
            final(self).primary() == old(self).primary(),
            final(self).session() == press_escape(old(self).config(), old(self).session(), now),
            well_formed(final(self).config(), final(self).session()),
            exited == (old(self).session().phase == Phase::Blocking && final(self).session().phase
                == Phase::Counting),
    {
        proof {
            use_type_invariant(&*self);
        }
        match self.session.phase {
            Phase::Blocking => {
                let pressed: u32 = self.session.escape_press_count + 1;
                if pressed >= self.config.escape_threshold {
                    self.session = SessionState {
                        phase: Phase::Counting,
                        phase_started_at: now,
                        paused_at: None,
                        escape_press_count: 0,
                        secondary_display: None,
                    };
                    true
                } else {
                    self.session = SessionState {
                        phase: self.session.phase,
                        phase_started_at: self.session.phase_started_at,
                        paused_at: self.session.paused_at,
                        escape_press_count: pressed,
                        secondary_display: self.session.secondary_display,
                    };
                    false
                }
            },
            _ => false,
        }
    }

    /// Applies one control event at `now`, as the transition table says.
    /// An event that has no row for the current phase changes nothing.
    /// Returns whether the phase changed.
    pub fn handle_event(&mut self, now: u64, event: ControlEvent) -> (changed: bool)
        ensures
            final(self).config() == old(self).config(),
            final(self).primary() == old(self).primary(),
            final(self).session() == apply_event(
                old(self).config(),
                old(self).session(),
                now,
                event,
            ),
            well_formed(final(self).config(), final(self).session()),
            changed == (final(self).session().phase != old(self).session().phase),
    {
        proof {
            use_type_invariant(&*self);
        }
        let s = self.session;
        match (s.phase, event) {
            (Phase::Counting, ControlEvent::Pause) => {
                if s.paused_at.is_none() {
                    let at = if now >= s.phase_started_at {
                        now
                    } else {
                        s.phase_started_at
                    };
                    self.session = SessionState {
                        phase: s.phase,
                        phase_started_at: s.phase_started_at,
                        paused_at: Some(at),
                        escape_press_count: s.escape_press_count,
                        secondary_display: s.secondary_display,
                    };
                }
                false
            },
            (Phase::Counting, ControlEvent::Resume) => {
                match s.paused_at {
                    Some(p) => {
                        let paused_for: u64 = if now >= p {
                            now - p
                        } else {
                            0
                        };
                        self.session = SessionState {
                            phase: s.phase,
                            phase_started_at: s.phase_started_at + paused_for,
                            paused_at: None,
                            escape_press_count: s.escape_press_count,
                            secondary_display: s.secondary_display,
                        };
                    },
                    None => {},
                }
                false
            },
            (Phase::Counting, ControlEvent::Reset) => {
                self.session = SessionState {
                    phase: s.phase,
                    phase_started_at: now,
                    paused_at: None,
                    escape_press_count: s.escape_press_count,
                    secondary_display: s.secondary_display,
                };
                false
            },
            (Phase::Blocking, ControlEvent::EmergencyExitPressed) => self.handle_escape(now),
            (Phase::BlockEnd, ControlEvent::PointerMovedBeyondThreshold) | (
                Phase::BlockEnd,
                ControlEvent::Clicked,
            ) => {
                self.session = SessionState {
                    phase: Phase::Counting,
                    phase_started_at: now,
                    paused_at: None,
                    escape_press_count: 0,
                    secondary_display: None,
                };
                true
            },
            _ => false,
        }
    }

    /// Evaluates the expiry guard of the current phase at `now`. Work that
    /// ran out starts a rest and latches `secondary` as the second display
    /// to cover; a rest that ran out ends. Returns whether the phase
    /// changed.
    pub fn check_expiry(&mut self, now: u64, secondary: Option<DisplayGeometry>) -> (changed: bool)
        ensures
            final(self).config() == old(self).config(),
            final(self).primary() == old(self).primary(),
            final(self).session() == expire(
                old(self).config(),
                old(self).session(),
                now,
                secondary,
            ),
            well_formed(final(self).config(), final(self).session()),
            changed == (final(self).session().phase != old(self).session().phase),
    {
        proof {
            use_type_invariant(&*self);
        }
        let s = self.session;
        let elapsed = self.elapsed(now);
        match s.phase {
            Phase::Counting => {
                if elapsed >= self.config.work_duration_secs as u64 {
                    self.session = SessionState {
                        phase: Phase::Blocking,
                        phase_started_at: now,
                        paused_at: None,
                        escape_press_count: 0,
                        secondary_display: secondary,
                    };
                    true
                } else {
                    false
                }
            },
            Phase::Blocking => {
                if elapsed >= self.config.rest_duration_secs as u64 {
                    self.session = SessionState {
                        phase: Phase::BlockEnd,
                        phase_started_at: s.phase_started_at,
                        paused_at: s.paused_at,
                        escape_press_count: 0,
                        secondary_display: s.secondary_display,
                    };
                    true
                } else {
                    false
                }
            },
            Phase::BlockEnd => false,
        }
    }

    /// The line on the primary overlay as seen at `now`: the time worked
    /// while counting, the time left while resting, a prompt afterwards.
    pub fn primary_line(&self, now: u64) -> (text: String)
        ensures
            text@ == primary_text(self.config(), self.session(), now),
    {
        match self.session.phase {
            Phase::Counting => fmt_span(self.elapsed(now)),
            Phase::Blocking => {
                let left = self.remaining(now);
                fmt_count(left / 60, left % 60)
            },
            Phase::BlockEnd => String::from_str("休息结束，移动鼠标解锁~"),
        }
    }

    /// The line on the secondary overlay as seen at `now`, if a secondary
    /// display is covered.
    pub fn secondary_line(&self, now: u64) -> (text: Option<String>)
        ensures
            text_of(text) == secondary_text(self.config(), self.session(), now),
    {
        match self.session.phase {
            Phase::Counting => None,
            phase => {
                if self.session.secondary_display.is_none() {
                    None
                } else {
                    let left = self.remaining(now);
                    if phase == Phase::Blocking && left > 0 {
                        Some(fmt_count(left / 60, left % 60))
                    } else {
                        Some(String::from_str("休息结束，点击鼠标解锁~"))
                    }
                }
            },
        }
    }

    /// Whether the rest overlay should warn of an imminent emergency exit.
    pub fn warns_of_escape(&self) -> (warn: bool)
        ensures
            warn == escape_warning(self.config(), self.session()),
    {
        self.session.phase == Phase::Blocking && self.session.escape_press_count
            > self.config.escape_threshold / 2
    }

    /// One step of the timer at `now`.
    ///
    /// Takes the pending event out of `signal`, if there is one, and
    /// applies it. Then evaluates the expiry guard of the phase the event
    /// left the machine in. The instruction that comes back names the phase
    /// after both, with its layout; its texts are those of the frame that
    /// was evaluated, before the guard fired.
    ///
    /// `secondary` is the non-primary display that is attached right now;
    /// it is only looked at when this tick starts a rest.
    pub fn tick(
        &mut self,
        now: u64,
        signal: &mut EventSignal,
        secondary: Option<DisplayGeometry>,
    ) -> (out: RenderInstruction)
        ensures
            final(signal).pending() == None::<ControlEvent>,
            final(self).config() == old(self).config(),
            final(self).primary() == old(self).primary(),
            final(self).session() == tick_session(
                old(self).config(),
                old(self).session(),
                now,
                old(signal).pending(),
                secondary,
            ),
            well_formed(final(self).config(), final(self).session()),
            out.phase == final(self).session().phase,
            out.display_text@ == primary_text(
                old(self).config(),
                after_event(old(self).config(), old(self).session(), now, old(signal).pending()),
                now,
            ),
            text_of(out.secondary_display_text) == secondary_text(
                old(self).config(),
                after_event(old(self).config(), old(self).session(), now, old(signal).pending()),
                now,
            ),
            out.escape_warning == escape_warning(
                old(self).config(),
                after_event(old(self).config(), old(self).session(), now, old(signal).pending()),
            ),
            (LayoutPlan { primary: out.primary_layout, secondary: out.secondary_layout }) == layout(
                final(self).session().phase,
                old(self).primary()@,
                geometry_of(final(self).session().secondary_display),
            ),
    {
        match signal.take() {
            Some(event) => {
                self.handle_event(now, event);
            },
            None => {},
        }
        let display_text = self.primary_line(now);
        let secondary_display_text = self.secondary_line(now);
        let escape_warning = self.warns_of_escape();
        self.check_expiry(now, secondary);
        let plan = self.current_layout();
        RenderInstruction {
            phase: self.session.phase,
            display_text,
            secondary_display_text,
            primary_layout: plan.primary,
            secondary_layout: plan.secondary,
            escape_warning,
        }
    }

    /// Applies a new configuration at `now`. A malformed one is refused and
    /// changes nothing. While counting, the count keeps running under the
    /// new durations; in any other phase the session starts over, counting
    /// from `now`.
    pub fn reconfigure(&mut self, config: TimerConfig, now: u64) -> (outcome: Result<
        (),
        TimerError,
    >)
        ensures
            final(self).primary() == old(self).primary(),
            well_formed(final(self).config(), final(self).session()),
            match outcome {
                Ok(_) => {
                    &&& config.valid()
                    &&& final(self).config() == config
                    &&& final(self).session() == if old(self).session().phase == Phase::Counting {
                        old(self).session()
                    } else {
                        counting_from(now)
                    }
                },
                Err(e) => {
                    &&& !config.valid()
                    &&& e == TimerError::Configuration
                    &&& final(self).config() == old(self).config()
                    &&& final(self).session() == old(self).session()
                },
            },
    {
        proof {
            use_type_invariant(&*self);
        }
        if !config.is_valid() {
            return Err(TimerError::Configuration);
        }
        let session = match self.session.phase {
            Phase::Counting => self.session,
            _ => SessionState {
                phase: Phase::Counting,
                phase_started_at: now,
                paused_at: None,
                escape_press_count: 0,
                secondary_display: None,
            },
        };
        *self = TimerStateMachine { config, session, primary: self.primary };
        Ok(())
    }
}

} // verus!
