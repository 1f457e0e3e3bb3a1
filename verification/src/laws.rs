use crate::blocker::{blocker_after_second, blocker_posting, BlockerView};
use crate::counter::{counter_after_second, counter_posting, CounterView};
use crate::display::{
    lemma_logical_bounds, screen_rect, to_logical, widget_rect, DisplayGeometry, Geometry,
    WIDGET_HEIGHT, WIDGET_MARGIN_BOTTOM, WIDGET_MARGIN_RIGHT, WIDGET_WIDTH,
};
use crate::event::ControlEvent;
use crate::message::{Message, PostingView};
use crate::timer::{
    after_event, apply_event, counting_from, elapsed_secs, remaining_secs, tick_session,
    well_formed, Phase, SessionState, TimerConfig,
};
use vstd::prelude::*;

verus! {

/// One call of `tick` as a value: the time it was made at, the event that
/// waited in the mailbox, and the secondary display that was attached.
pub struct Step {
    pub now: u64,
    pub event: Option<ControlEvent>,
    pub secondary: Option<DisplayGeometry>,
}

/// The session after a sequence of ticks, first to last.
pub open spec fn run(cfg: TimerConfig, s: SessionState, steps: Seq<Step>) -> SessionState
    decreases steps.len(),
{
    if steps.len() == 0 {
        s
    } else {
        let step = steps.last();
        tick_session(cfg, run(cfg, s, steps.drop_last()), step.now, step.event, step.secondary)
    }
}

/// The time of the last tick of `steps`, or `start` when there is none.
pub open spec fn last_time(start: u64, steps: Seq<Step>) -> u64 {
    if steps.len() == 0 {
        start
    } else {
        steps.last().now
    }
}

/// The clock never runs backwards: the first tick is not before `start`,
/// and no tick is before the one it follows.
pub open spec fn non_decreasing(start: u64, steps: Seq<Step>) -> bool {
    forall|i: int|
        0 <= i < steps.len() ==> last_time(start, steps.take(i)) <= (#[trigger] steps[i]).now
}

/// No tick of `steps` carries a pause.
pub open spec fn without_pause(steps: Seq<Step>) -> bool {
    forall|i: int|
        0 <= i < steps.len() ==> (#[trigger] steps[i]).event != Some(ControlEvent::Pause)
}

/// The session after emergency-exit presses at the given times, one after
/// the other.
pub open spec fn press_at(cfg: TimerConfig, s: SessionState, times: Seq<u64>) -> SessionState
    decreases times.len(),
{
    if times.len() == 0 {
        s
    } else {
        apply_event(
            cfg,
            press_at(cfg, s, times.drop_last()),
            times.last(),
            ControlEvent::EmergencyExitPressed,
        )
    }
}

/// A control event keeps a well-formed session well-formed.
pub proof fn lemma_event_keeps_well_formed(
    cfg: TimerConfig,
    s: SessionState,
    now: u64,
    event: ControlEvent,
)
    requires
        well_formed(cfg, s),
    ensures
        well_formed(cfg, apply_event(cfg, s, now, event)),
{
}

/// A whole tick keeps a well-formed session well-formed.
pub proof fn lemma_tick_keeps_well_formed(
    cfg: TimerConfig,
    s: SessionState,
    now: u64,
    event: Option<ControlEvent>,
    secondary: Option<DisplayGeometry>,
)
    requires
        well_formed(cfg, s),
    ensures
        well_formed(cfg, tick_session(cfg, s, now, event, secondary)),
{
}

/// The invariant holds forever: whatever ticks a well-formed session goes
/// through, at whatever times and with whatever events, it stays
/// well-formed.
pub proof fn lemma_run_keeps_well_formed(cfg: TimerConfig, s: SessionState, steps: Seq<Step>)
    requires
        well_formed(cfg, s),
    ensures
        well_formed(cfg, run(cfg, s, steps)),
    decreases steps.len(),
{
    if steps.len() > 0 {
        lemma_run_keeps_well_formed(cfg, s, steps.drop_last());
    }
}

/// Whenever a tick changes the phase, the new phase starts clean: not
/// paused, no presses counted, and a secondary display only outside of
/// counting. A tick that stays in a rest never lowers the press count and
/// leaves the start of the rest alone.
pub proof fn lemma_phase_change_starts_clean(
    cfg: TimerConfig,
    s: SessionState,
    now: u64,
    event: Option<ControlEvent>,
    secondary: Option<DisplayGeometry>,
)
    requires
        well_formed(cfg, s),
    ensures
        ({
            let next = tick_session(cfg, s, now, event, secondary);
            &&& next.phase != s.phase ==> next.paused_at.is_none() && next.escape_press_count == 0
            &&& next.phase == Phase::Counting ==> next.secondary_display.is_none()
            &&& s.phase == Phase::Blocking && next.phase == Phase::Blocking ==> {
                &&& next.escape_press_count >= s.escape_press_count
                &&& next.phase_started_at == s.phase_started_at
                &&& next.secondary_display == s.secondary_display
            }
        }),
{
}

/// A tick changes the phase at most once: when the event already changed
/// it, the expiry guard does not fire in the same tick.
pub proof fn lemma_one_phase_change_per_tick(
    cfg: TimerConfig,
    s: SessionState,
    now: u64,
    event: Option<ControlEvent>,
    secondary: Option<DisplayGeometry>,
)
    requires
        well_formed(cfg, s),
    ensures
        after_event(cfg, s, now, event).phase != s.phase ==> tick_session(
            cfg,
            s,
            now,
            event,
            secondary,
        ) == after_event(cfg, s, now, event),
{
}

/// A second tick at the same time, with nothing in the mailbox, changes
/// nothing.
pub proof fn lemma_tick_without_progress(
    cfg: TimerConfig,
    s: SessionState,
    now: u64,
    event: Option<ControlEvent>,
    secondary: Option<DisplayGeometry>,
    secondary_again: Option<DisplayGeometry>,
)
    requires
        well_formed(cfg, s),
    ensures
        ({
            let once = tick_session(cfg, s, now, event, secondary);
            tick_session(cfg, once, now, None, secondary_again) == once
        }),
{
}

/// Elapsed time is exact when nothing pauses: after any sequence of ticks
/// with a clock that never runs backwards and without a pause event, the
/// session is not paused, and the elapsed time at the last tick is the
/// time of that tick minus the start of the phase.
pub proof fn lemma_elapsed_is_exact(cfg: TimerConfig, s: SessionState, steps: Seq<Step>)
    requires
        well_formed(cfg, s),
        s.paused_at.is_none(),
        non_decreasing(s.phase_started_at, steps),
        without_pause(steps),
    ensures
        ({
            let end = run(cfg, s, steps);
            let now = last_time(s.phase_started_at, steps);
            &&& well_formed(cfg, end)
            &&& end.paused_at.is_none()
            &&& end.phase_started_at <= now
            &&& elapsed_secs(end, now) == now - end.phase_started_at
        }),
    decreases steps.len(),
{
    if steps.len() > 0 {
        let before = steps.drop_last();
        assert forall|i: int| 0 <= i < before.len() implies last_time(
            s.phase_started_at,
            before.take(i),
        ) <= (#[trigger] before[i]).now by {
            assert(before[i] == steps[i]);
            assert(before.take(i) =~= steps.take(i));
        }
        assert forall|i: int| 0 <= i < before.len() implies (#[trigger] before[i]).event != Some(
            ControlEvent::Pause,
        ) by {
            assert(before[i] == steps[i]);
        }
        lemma_elapsed_is_exact(cfg, s, before);
        assert(steps.take(steps.len() - 1) =~= before);
    }
}

/// A pause is left out exactly once: pause a running count at `t1`, resume
/// it at `t2`, and at any later `t3` the elapsed time is what had passed
/// at `t1` plus what passed since `t2`.
pub proof fn lemma_pause_resume_continuity(
    cfg: TimerConfig,
    s: SessionState,
    t1: u64,
    t2: u64,
    t3: u64,
)
    requires
        well_formed(cfg, s),
        s.phase == Phase::Counting,
        s.paused_at.is_none(),
        s.phase_started_at <= t1 <= t2 <= t3,
    ensures
        ({
            let paused = apply_event(cfg, s, t1, ControlEvent::Pause);
            let resumed = apply_event(cfg, paused, t2, ControlEvent::Resume);
            &&& elapsed_secs(paused, t2) == t1 - s.phase_started_at
            &&& resumed.paused_at.is_none()
            &&& resumed.phase_started_at == s.phase_started_at + (t2 - t1)
            &&& elapsed_secs(resumed, t3) == (t1 - s.phase_started_at) + (t3 - t2)
        }),
{
}

/// The time left in a rest never goes below zero, and the rest ends in the
/// first tick in which the elapsed time reaches the rest duration, not
/// before: unless an emergency exit ends it in that tick, a resting
/// session moves on exactly when nothing is left.
pub proof fn lemma_rest_ends_when_nothing_is_left(
    cfg: TimerConfig,
    s: SessionState,
    now: u64,
    event: Option<ControlEvent>,
    secondary: Option<DisplayGeometry>,
)
    requires
        well_formed(cfg, s),
        s.phase == Phase::Blocking,
    ensures
        remaining_secs(cfg, s, now) >= 0,
        elapsed_secs(s, now) >= cfg.rest_duration_secs <==> remaining_secs(cfg, s, now) == 0,
        elapsed_secs(s, now) < cfg.rest_duration_secs ==> remaining_secs(cfg, s, now)
            == cfg.rest_duration_secs - elapsed_secs(s, now),
        ({
            let next = tick_session(cfg, s, now, event, secondary);
            if after_event(cfg, s, now, event).phase == Phase::Counting {
                next == counting_from(now)
            } else if remaining_secs(cfg, s, now) == 0 {
                next.phase == Phase::BlockEnd
            } else {
                next.phase == Phase::Blocking
            }
        }),
{
}

/// Presses below the threshold only count: `times.len()` presses in a rest
/// that has `s.escape_press_count` already leave everything but the count
/// as it was, as long as the sum stays below the threshold.
pub proof fn lemma_presses_below_threshold(cfg: TimerConfig, s: SessionState, times: Seq<u64>)
    requires
        well_formed(cfg, s),
        s.phase == Phase::Blocking,
        s.escape_press_count + times.len() < cfg.escape_threshold,
    ensures
        press_at(cfg, s, times) == (SessionState {
            escape_press_count: (s.escape_press_count + times.len()) as u32,
            ..s
        }),
    decreases times.len(),
{
    if times.len() > 0 {
        lemma_presses_below_threshold(cfg, s, times.drop_last());
    }
}

/// The escape threshold is sharp. In a rest that just began, one press
/// less than the threshold leaves the rest running with that many presses
/// counted, and exactly as many presses as the threshold end it: the
/// session counts again from the time of the last press.
pub proof fn lemma_escape_threshold_boundary(cfg: TimerConfig, s: SessionState, times: Seq<u64>)
    requires
        well_formed(cfg, s),
        s.phase == Phase::Blocking,
        s.escape_press_count == 0,
        times.len() == cfg.escape_threshold,
    ensures
        ({
            let almost = press_at(cfg, s, times.drop_last());
            &&& almost.phase == Phase::Blocking
            &&& almost.escape_press_count == cfg.escape_threshold - 1
            &&& almost.phase_started_at == s.phase_started_at
        }),
        press_at(cfg, s, times) == counting_from(times.last()),
{
    lemma_presses_below_threshold(cfg, s, times.drop_last());
}

/// A reset only touches a counting session: in a rest, or after one, the
/// session stays exactly as it was, and a tick that carries the reset ends
/// as the same tick without it.
pub proof fn lemma_reset_outside_counting(
    cfg: TimerConfig,
    s: SessionState,
    now: u64,
    secondary: Option<DisplayGeometry>,
)
    requires
        s.phase != Phase::Counting,
    ensures
        apply_event(cfg, s, now, ControlEvent::Reset) == s,
        tick_session(cfg, s, now, Some(ControlEvent::Reset), secondary) == tick_session(
            cfg,
            s,
            now,
            None,
            secondary,
        ),
{
}

/// A second pause changes nothing: whatever the session and the times, two
/// pauses in a row leave it as the first one did.
pub proof fn lemma_pause_twice(cfg: TimerConfig, s: SessionState, t1: u64, t2: u64)
    ensures
        apply_event(
            cfg,
            apply_event(cfg, s, t1, ControlEvent::Pause),
            t2,
            ControlEvent::Pause,
        ) == apply_event(cfg, s, t1, ControlEvent::Pause),
{
}

/// The widget keeps its margins: its right and bottom edges lie exactly one
/// margin inside the right and bottom edges of the display it is on.
pub proof fn lemma_widget_is_inset(g: Geometry)
    requires
        g.scale_permille > 0,
        i32::MIN <= g.x <= i32::MAX,
        i32::MIN <= g.y <= i32::MAX,
        g.width <= u32::MAX,
        g.height <= u32::MAX,
    ensures
        ({
            let widget = widget_rect(g);
            let screen = screen_rect(g);
            &&& widget.x + widget.width + to_logical(WIDGET_MARGIN_RIGHT as int, g.scale_permille)
                == screen.x + screen.width
            &&& widget.y + widget.height + to_logical(
                WIDGET_MARGIN_BOTTOM as int,
                g.scale_permille,
            ) == screen.y + screen.height
        }),
{
    let s = g.scale_permille;
    lemma_logical_bounds(g.x, s);
    lemma_logical_bounds(g.y, s);
    lemma_logical_bounds(g.width as int, s);
    lemma_logical_bounds(g.height as int, s);
    lemma_logical_bounds(WIDGET_WIDTH as int, s);
    lemma_logical_bounds(WIDGET_HEIGHT as int, s);
    lemma_logical_bounds(WIDGET_MARGIN_RIGHT as int, s);
    lemma_logical_bounds(WIDGET_MARGIN_BOTTOM as int, s);
}

/// A counter after `n` seconds in which it was neither paused nor
/// cancelled.
pub open spec fn counter_after(c: CounterView, n: nat) -> CounterView
    decreases n,
{
    if n == 0 {
        c
    } else {
        counter_after_second(counter_after(c, (n - 1) as nat), false)
    }
}

/// A countdown after `n` seconds in which it was not cancelled.
pub open spec fn blocker_after(b: BlockerView, n: nat) -> BlockerView
    decreases n,
{
    if n == 0 {
        b
    } else {
        blocker_after_second(blocker_after(b, (n - 1) as nat), false)
    }
}

/// A work count ends on time: started from zero and left alone, the
/// counter goes on for every second before its work duration is reached,
/// and in the second that reaches it the window is closed, the application
/// is told, and the counter stops.
pub proof fn lemma_counter_ends_on_time(c: CounterView, n: nat)
    requires
        !c.paused,
        c.count_secs == 0,
        n < c.target_secs,
    ensures
        counter_after(c, n) == (CounterView { count_secs: n as u32, ..c }),
        counter_posting(counter_after(c, n), false) == if n + 1 == c.target_secs {
            PostingView {
                to_window: seq![Message::Update((n + 1) as u32), Message::Close],
                to_app: Some(Message::CounterEnd),
                go_on: false,
            }
        } else {
            PostingView {
                to_window: seq![Message::Update((n + 1) as u32)],
                to_app: None,
                go_on: true,
            }
        },
    decreases n,
{
    if n > 0 {
        lemma_counter_ends_on_time(c, (n - 1) as nat);
    }
}

/// A rest counts down to zero: left alone, a countdown that starts with
/// `b.count_secs` seconds goes on for every second but the last, and stops
/// in the second that leaves nothing.
pub proof fn lemma_blocker_counts_down(b: BlockerView, n: nat)
    requires
        n < b.count_secs,
    ensures
        blocker_after(b, n) == (BlockerView { count_secs: (b.count_secs - n) as u32, ..b }),
        blocker_posting(blocker_after(b, n), false) == (PostingView {
            to_window: seq![Message::Update((b.count_secs - n - 1) as u32)],
            to_app: None,
            go_on: n + 1 < b.count_secs,
        }),
    decreases n,
{
    if n > 0 {
        lemma_blocker_counts_down(b, (n - 1) as nat);
    }
}

} // verus!
