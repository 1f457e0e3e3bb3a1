use restloop::display::{resolve, select_primary, select_secondary, DisplayGeometry};
use restloop::error::TimerError;
use restloop::timer::Phase;

fn display(x: i32, y: i32, w: u32, h: u32, scale: u32, primary: bool) -> DisplayGeometry {
    DisplayGeometry::new(x, y, w, h, scale, primary).unwrap()
}

#[test]
fn zero_scale_is_refused() {
    assert_eq!(DisplayGeometry::new(0, 0, 800, 600, 0, true), Err(TimerError::DisplayUnavailable));
}

#[test]
fn getters_return_what_was_given() {
    let d = display(-5, 7, 800, 600, 1500, false);
    assert_eq!(d.x(), -5);
    assert_eq!(d.y(), 7);
    assert_eq!(d.width(), 800);
    assert_eq!(d.height(), 600);
    assert_eq!(d.scale_permille(), 1500);
    assert!(!d.is_primary());
}

#[test]
fn widget_sits_near_the_bottom_right_corner() {
    let d = display(0, 0, 1920, 1080, 1000, true);
    let plan = resolve(Phase::Counting, &d, None);
    let r = plan.primary;
    assert_eq!((r.x, r.y, r.width, r.height), (1920 - 142 - 30, 1080 - 80 - 70, 142, 70));
    assert_eq!(plan.secondary, None);
}

#[test]
fn widget_ignores_the_secondary_display() {
    let d = display(0, 0, 1920, 1080, 1000, true);
    let other = display(1920, 0, 1280, 720, 1000, false);
    let plan = resolve(Phase::Counting, &d, Some(&other));
    assert_eq!(plan.secondary, None);
}

#[test]
fn scale_divides_every_measure() {
    let d = display(0, 0, 1920, 1080, 1250, true);
    let r = resolve(Phase::Counting, &d, None).primary;
    assert_eq!((r.width, r.height), (113, 56));
    assert_eq!((r.x, r.y), (1536 - 113 - 24, 864 - 64 - 56));
    let full = resolve(Phase::Blocking, &d, None).primary;
    assert_eq!((full.x, full.y, full.width, full.height), (0, 0, 1536, 864));
    assert_eq!(d.widget(), r);
    assert_eq!(d.full_screen(), full);
}

#[test]
fn rest_covers_both_displays() {
    let d = display(0, 0, 3840, 2160, 2000, true);
    let other = display(-1920, 100, 1920, 1080, 1500, false);
    for phase in [Phase::Blocking, Phase::BlockEnd] {
        let plan = resolve(phase, &d, Some(&other));
        let p = plan.primary;
        assert_eq!((p.x, p.y, p.width, p.height), (0, 0, 1920, 1080));
        let s = plan.secondary.unwrap();
        assert_eq!((s.x, s.y, s.width, s.height), (-1280, 66, 1280, 720));
    }
}

#[test]
fn tiny_display_puts_the_widget_off_screen_without_overflow() {
    let d = display(0, 0, 100, 50, 1000, true);
    let r = resolve(Phase::Counting, &d, None).primary;
    assert_eq!((r.x, r.y), (100 - 142 - 30, 50 - 80 - 70));
}

#[test]
fn extreme_geometry_stays_in_range() {
    let d = display(i32::MIN, i32::MAX, u32::MAX, u32::MAX, 1, true);
    let full = resolve(Phase::Blocking, &d, None).primary;
    assert_eq!(full.x, -2147483648i64 * 1000);
    assert_eq!(full.y, 2147483647i64 * 1000);
    assert_eq!(full.width, 4294967295u64 * 1000);
    let w = resolve(Phase::Counting, &d, None).primary;
    assert_eq!(w.width, 142_000);
    assert_eq!(w.x, -2147483648i64 * 1000 + 4294967295i64 * 1000 - 142_000 - 30_000);
}

#[test]
fn primary_is_the_first_that_says_so() {
    let list = vec![
        display(1920, 0, 1280, 720, 1000, false),
        display(0, 0, 1920, 1080, 1000, true),
        display(0, 0, 640, 480, 1000, true),
    ];
    assert_eq!(select_primary(&list), Ok(list[1]));
    assert_eq!(select_secondary(&list), Some(list[0]));
}

#[test]
fn no_primary_display_is_an_error() {
    let list = vec![display(1920, 0, 1280, 720, 1000, false)];
    assert_eq!(select_primary(&list), Err(TimerError::DisplayUnavailable));
    assert_eq!(select_primary(&Vec::new()), Err(TimerError::DisplayUnavailable));
}

#[test]
fn no_secondary_display_is_normal() {
    let list = vec![display(0, 0, 1920, 1080, 1000, true)];
    assert_eq!(select_secondary(&list), None);
    assert_eq!(select_secondary(&Vec::new()), None);
}
