use restloop::blocker::{Blocker, RestWindow};
use restloop::counter::Counter;
use restloop::message::Message;
use restloop::tray::{tray_command, TrayCommand};
use restloop::event::ControlEvent;

#[test]
fn counter_counts_up_to_the_work_duration() {
    let mut c = Counter::new(3);
    let (previous, token) = c.start();
    assert_eq!(previous, None);
    assert!(!token.is_cancelled());
    let p = c.second_passed(&token);
    assert_eq!(p.to_window, vec![Message::Update(1)]);
    assert_eq!(p.to_app, None);
    assert!(p.go_on);
    c.second_passed(&token);
    let p = c.second_passed(&token);
    assert_eq!(p.to_window, vec![Message::Update(3), Message::Close]);
    assert_eq!(p.to_app, Some(Message::CounterEnd));
    assert!(!p.go_on);
    assert_eq!(c.count_secs(), 3);
}

#[test]
fn paused_counter_waits() {
    let mut c = Counter::new(3);
    let (_, token) = c.start();
    c.pause();
    assert!(c.is_paused());
    let p = c.second_passed(&token);
    assert!(p.to_window.is_empty());
    assert_eq!(p.to_app, None);
    assert!(p.go_on);
    assert_eq!(c.count_secs(), 0);
    c.resume();
    assert!(!c.is_paused());
    assert_eq!(c.second_passed(&token).to_window, vec![Message::Update(1)]);
}

#[test]
fn paused_counter_goes_on_even_when_cancelled() {
    let mut c = Counter::new(3);
    c.pause();
    let p = c.advance(true);
    assert!(p.go_on);
    assert!(p.to_window.is_empty());
    assert_eq!(c.count_secs(), 0);
}

#[test]
fn closed_counter_stops() {
    let mut c = Counter::new(3);
    assert_eq!(c.close(), None);
    let (_, token) = c.start();
    assert_eq!(c.close(), Some(Message::Close));
    assert!(token.is_cancelled());
    assert_eq!(c.close(), None);
    let p = c.second_passed(&token);
    assert!(p.to_window.is_empty());
    assert_eq!(p.to_app, None);
    assert!(!p.go_on);
    assert_eq!(c.count_secs(), 0);
}

#[test]
fn cancelling_the_handle_stops_the_counter() {
    let mut c = Counter::new(3);
    let (_, token) = c.start();
    assert!(c.second_passed(&token).go_on);
    token.cancel();
    let p = c.second_passed(&token);
    assert!(!p.go_on);
    assert!(p.to_window.is_empty());
    assert_eq!(c.count_secs(), 1);
}

#[test]
fn restart_closes_the_previous_count() {
    let mut c = Counter::new(3);
    let (_, first) = c.start();
    c.second_passed(&first);
    let (previous, second) = c.start();
    assert_eq!(previous, Some(Message::Close));
    assert!(first.is_cancelled());
    assert!(!second.is_cancelled());
    assert_eq!(c.count_secs(), 0);
}

#[test]
fn running_count_keeps_its_duration() {
    let mut c = Counter::new(2);
    let (_, token) = c.start();
    c.set_work_secs(1);
    assert!(c.second_passed(&token).go_on);
    assert!(!c.second_passed(&token).go_on);
    let (_, token) = c.start();
    assert!(!c.second_passed(&token).go_on);
}

#[test]
fn counter_reset_starts_from_zero() {
    let mut c = Counter::new(10);
    let (_, token) = c.start();
    c.second_passed(&token);
    c.second_passed(&token);
    c.reset();
    assert_eq!(c.count_secs(), 0);
    assert_eq!(c.second_passed(&token).to_window, vec![Message::Update(1)]);
}

#[test]
fn counter_wraps_at_the_end_of_the_range() {
    let mut c = Counter::new(0);
    let p = c.advance(false);
    assert_eq!(p.to_window, vec![Message::Update(1)]);
    assert!(p.go_on);
}

#[test]
fn blocker_counts_down_to_zero() {
    let mut b = Blocker::new(2);
    let (previous, token) = b.start();
    assert_eq!(previous, None);
    assert_eq!(b.count_secs(), 2);
    let p = b.second_passed(&token);
    assert_eq!(p.to_window, vec![Message::Update(1)]);
    assert!(p.go_on);
    let p = b.second_passed(&token);
    assert_eq!(p.to_window, vec![Message::Update(0)]);
    assert_eq!(p.to_app, None);
    assert!(!p.go_on);
}

#[test]
fn blocker_uses_the_duration_set_before_start() {
    let mut b = Blocker::new(2);
    b.set_rest_secs(1);
    let (_, first) = b.start();
    assert_eq!(b.count_secs(), 1);
    assert!(!b.second_passed(&first).go_on);
    let (previous, second) = b.start();
    assert_eq!(previous, Some(Message::Close));
    assert!(first.is_cancelled());
    assert_eq!(b.close(), Some(Message::Close));
    assert!(second.is_cancelled());
    assert_eq!(b.close(), None);
    let p = b.second_passed(&second);
    assert!(!p.go_on);
    assert!(p.to_window.is_empty());
    assert_eq!(b.count_secs(), 1);
}

#[test]
fn blocker_started_with_nothing_left_wraps() {
    let mut b = Blocker::new(0);
    let (_, token) = b.start();
    let p = b.second_passed(&token);
    assert_eq!(p.to_window, vec![Message::Update(u32::MAX)]);
    assert!(p.go_on);
}

#[test]
fn cancelled_blocker_keeps_its_count() {
    let mut b = Blocker::new(5);
    b.start();
    let p = b.advance(true);
    assert!(!p.go_on);
    assert!(p.to_window.is_empty());
    assert_eq!(b.count_secs(), 5);
}

#[test]
fn rest_window_follows_its_messages() {
    let mut w = RestWindow::new(125);
    assert_eq!(w.text(), "正在休息中，02:05 后解锁");
    w.receive(Message::Update(9));
    assert_eq!(w.text(), "正在休息中，00:09 后解锁");
    w.receive(Message::CounterEnd);
    w.receive(Message::BlockerEnd);
    assert_eq!(w, RestWindow { count_secs: 9, closing: false });
    w.receive(Message::Update(0));
    assert_eq!(w.text(), "休息结束，滑动鼠标解锁");
    w.receive(Message::Close);
    assert!(w.closing);
    assert_eq!(w.clicked(), Message::BlockerEnd);
}

#[test]
fn tray_entries_map_to_commands() {
    assert_eq!(tray_command("quit"), Some(TrayCommand::Quit));
    assert_eq!(tray_command("puase"), Some(TrayCommand::Pause));
    assert_eq!(tray_command("resume"), Some(TrayCommand::Resume));
    assert_eq!(tray_command("reset"), Some(TrayCommand::Reset));
    assert_eq!(tray_command("setting"), Some(TrayCommand::Settings));
    assert_eq!(tray_command("pause"), None);
    assert_eq!(tray_command(""), None);
}

#[test]
fn tray_ids_round_trip() {
    for c in [
        TrayCommand::Quit,
        TrayCommand::Pause,
        TrayCommand::Resume,
        TrayCommand::Reset,
        TrayCommand::Settings,
    ] {
        assert_eq!(tray_command(c.id()), Some(c));
        assert!(!c.title().is_empty());
    }
}

#[test]
fn tray_commands_send_control_events() {
    assert_eq!(TrayCommand::Pause.event(), Some(ControlEvent::Pause));
    assert_eq!(TrayCommand::Resume.event(), Some(ControlEvent::Resume));
    assert_eq!(TrayCommand::Reset.event(), Some(ControlEvent::Reset));
    assert_eq!(TrayCommand::Quit.event(), None);
    assert_eq!(TrayCommand::Settings.event(), None);
}
