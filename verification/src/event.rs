use crate::timer::Phase;
use vstd::prelude::*;

verus! {

/// A control intent sent to the timer from outside its own thread of
/// control: the tray menu, the keyboard, the pointer.
#[derive(Clone, Copy, Debug, PartialEq, Eq, Structural)]
pub enum ControlEvent {
    /// Freeze the work count.
    Pause,
    /// Continue a frozen work count.
    Resume,
    /// Start the work count over.
    Reset,
    /// One press of the emergency-exit key.
    EmergencyExitPressed,
    /// The pointer left the neighbourhood of where the rest ended.
    PointerMovedBeyondThreshold,
    /// The overlay was clicked.
    Clicked,
}

/// A mailbox with room for one event. Sending never fails and nothing
/// queues up: an event that was not taken yet is overwritten, so only the
/// latest intent survives a slow consumer. This loss is intended; every
/// event is either harmless to repeat or sampled far more often than a
/// user can act.
///
/// The mailbox itself is plain data with one owner at a time. Whoever
/// shares it between producers and the timer wraps it in a lock that is
/// held for one `send` or one tick, so that each is one atomic step.
#[derive(Debug)]
pub struct EventSignal {
    slot: Option<ControlEvent>,
}

impl EventSignal {
    /// The event that waits to be taken, if any.
    pub closed spec fn pending(&self) -> Option<ControlEvent> {
        self.slot
    }

    /// An empty mailbox.
    pub fn new() -> (signal: EventSignal)
        ensures
            signal.pending() == None::<ControlEvent>,
    {
        EventSignal { slot: None }
    }

    /// Puts `event` into the mailbox, replacing whatever waited there.
    pub fn send(&mut self, event: ControlEvent)
        ensures
            final(self).pending() == Some(event),
    {
        self.slot = Some(event);
    }

    /// Reads and clears the mailbox in one step.
    pub fn take(&mut self) -> (event: Option<ControlEvent>)
        ensures
            event == old(self).pending(),
            final(self).pending() == None::<ControlEvent>,
    {
        let event = self.slot;
        self.slot = None;
        event
    }

    /// Whether an event waits to be taken.
    pub fn is_pending(&self) -> (waiting: bool)
        ensures
            waiting == self.pending().is_some(),
    {
        self.slot.is_some()
    }
}

/// The pointer counts as moved once it is more than this many pixels away
/// from its baseline on either axis.
pub const POINTER_MOVE_THRESHOLD: u32 = 10;

/// The distance between two coordinates.
pub open spec fn axis_distance(a: u32, b: u32) -> int {
    if a >= b {
        a - b
    } else {
        b - a
    }
}

/// Whether the pointer at `position` has left the neighbourhood of
/// `baseline`, the place where it was when the rest ended.
pub open spec fn pointer_left(baseline: (u32, u32), position: (u32, u32)) -> bool {
    axis_distance(baseline.0, position.0) > POINTER_MOVE_THRESHOLD || axis_distance(
        baseline.1,
        position.1,
    ) > POINTER_MOVE_THRESHOLD
}

/// Decides whether a pointer reading ends the rest: `true` exactly when the
/// pointer moved more than [`POINTER_MOVE_THRESHOLD`] on either axis.
pub fn pointer_moved(baseline: (u32, u32), position: (u32, u32)) -> (moved: bool)
    ensures
        moved == pointer_left(baseline, position),
{
    let dx: u32 = if baseline.0 >= position.0 {
        baseline.0 - position.0
    } else {
        position.0 - baseline.0
    };
    let dy: u32 = if baseline.1 >= position.1 {
        baseline.1 - position.1
    } else {
        position.1 - baseline.1
    };
    dx > POINTER_MOVE_THRESHOLD || dy > POINTER_MOVE_THRESHOLD
}

/// What the overlay host saw in one frame while the rest is over: the event
/// to send, if any. A click wins over a pointer move.
pub open spec fn acknowledgement(
    baseline: (u32, u32),
    position: (u32, u32),
    clicked: bool,
) -> Option<ControlEvent> {
    if clicked {
        Some(ControlEvent::Clicked)
    } else if pointer_left(baseline, position) {
        Some(ControlEvent::PointerMovedBeyondThreshold)
    } else {
        None
    }
}

/// Turns one frame's pointer reading into the event that acknowledges the
/// end of the rest, or `None` when the user did nothing yet.
pub fn acknowledge(baseline: (u32, u32), position: (u32, u32), clicked: bool) -> (event: Option<
    ControlEvent,
>)
    ensures
        event == acknowledgement(baseline, position, clicked),
{
    if clicked {
        Some(ControlEvent::Clicked)
    } else if pointer_moved(baseline, position) {
        Some(ControlEvent::PointerMovedBeyondThreshold)
    } else {
        None
    }
}

/// What the overlay host observed in one frame.
#[derive(Clone, Copy, Debug, PartialEq, Eq)]
pub struct FrameInput {
    /// Where the pointer is.
    pub pointer: (u32, u32),
    /// Whether an overlay was clicked.
    pub clicked: bool,
    /// Whether the emergency-exit key went down.
    pub escape_pressed: bool,
}

/// The event that a frame's observations amount to in `phase`. The key
/// only counts during a rest, pointer and click only after it.
pub open spec fn frame_event_of(phase: Phase, baseline: (u32, u32), input: FrameInput) -> Option<
    ControlEvent,
> {
    match phase {
        Phase::Counting => None,
        Phase::Blocking => if input.escape_pressed {
            Some(ControlEvent::EmergencyExitPressed)
        } else {
            None
        },
        Phase::BlockEnd => acknowledgement(baseline, input.pointer, input.clicked),
    }
}

/// Turns what the overlay host observed in one frame into the event to
/// send, if any. `baseline` is where the pointer was when the rest ended.
pub fn frame_event(phase: Phase, baseline: (u32, u32), input: &FrameInput) -> (event: Option<
    ControlEvent,
>)
    ensures
        event == frame_event_of(phase, baseline, *input),
{
    match phase {
        Phase::Counting => None,
        Phase::Blocking => if input.escape_pressed {
            Some(ControlEvent::EmergencyExitPressed)
        } else {
            None
        },
        Phase::BlockEnd => acknowledge(baseline, input.pointer, input.clicked),
    }
}

} // verus!
