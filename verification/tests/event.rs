use restloop::event::{
    acknowledge, frame_event, pointer_moved, ControlEvent, EventSignal, FrameInput,
    POINTER_MOVE_THRESHOLD,
};
use restloop::timer::Phase;

#[test]
fn new_mailbox_is_empty() {
    let mut signal = EventSignal::new();
    assert!(!signal.is_pending());
    assert_eq!(signal.take(), None);
}

#[test]
fn take_reads_and_clears() {
    let mut signal = EventSignal::new();
    signal.send(ControlEvent::Pause);
    assert!(signal.is_pending());
    assert_eq!(signal.take(), Some(ControlEvent::Pause));
    assert!(!signal.is_pending());
    assert_eq!(signal.take(), None);
}

#[test]
fn latest_event_wins() {
    let mut signal = EventSignal::new();
    signal.send(ControlEvent::Pause);
    signal.send(ControlEvent::Resume);
    signal.send(ControlEvent::Reset);
    assert_eq!(signal.take(), Some(ControlEvent::Reset));
    assert_eq!(signal.take(), None);
}

#[test]
fn pointer_threshold_is_exclusive() {
    assert_eq!(POINTER_MOVE_THRESHOLD, 10);
    assert!(!pointer_moved((100, 100), (100, 100)));
    assert!(!pointer_moved((100, 100), (110, 90)));
    assert!(pointer_moved((100, 100), (111, 100)));
    assert!(pointer_moved((100, 100), (100, 89)));
    assert!(pointer_moved((0, 0), (u32::MAX, 0)));
    assert!(pointer_moved((u32::MAX, 0), (0, 0)));
}

#[test]
fn acknowledgement_prefers_the_click() {
    assert_eq!(acknowledge((5, 5), (5, 5), false), None);
    assert_eq!(acknowledge((5, 5), (5, 5), true), Some(ControlEvent::Clicked));
    assert_eq!(acknowledge((5, 5), (50, 5), true), Some(ControlEvent::Clicked));
    assert_eq!(
        acknowledge((5, 5), (50, 5), false),
        Some(ControlEvent::PointerMovedBeyondThreshold)
    );
}

#[test]
fn frame_observations_become_events_by_phase() {
    let busy = FrameInput { pointer: (500, 500), clicked: true, escape_pressed: true };
    let idle = FrameInput { pointer: (0, 0), clicked: false, escape_pressed: false };
    assert_eq!(frame_event(Phase::Counting, (0, 0), &busy), None);
    assert_eq!(frame_event(Phase::Blocking, (0, 0), &busy), Some(ControlEvent::EmergencyExitPressed));
    assert_eq!(frame_event(Phase::Blocking, (0, 0), &idle), None);
    assert_eq!(frame_event(Phase::BlockEnd, (0, 0), &busy), Some(ControlEvent::Clicked));
    assert_eq!(frame_event(Phase::BlockEnd, (0, 0), &idle), None);
    let moved = FrameInput { pointer: (0, 11), clicked: false, escape_pressed: true };
    assert_eq!(
        frame_event(Phase::BlockEnd, (0, 0), &moved),
        Some(ControlEvent::PointerMovedBeyondThreshold)
    );
}
