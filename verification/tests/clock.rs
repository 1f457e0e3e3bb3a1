use restloop::clock::{
    fmt_count, fmt_span, now, push_clock, push_decimal, push_two_digits, timestamp,
};

#[test]
fn count_line_pads_to_two_digits() {
    assert_eq!(fmt_count(0, 3), "休息中，00:03 后解锁");
    assert_eq!(fmt_count(2, 0), "休息中，02:00 后解锁");
    assert_eq!(fmt_count(12, 34), "休息中，12:34 后解锁");
}

#[test]
fn count_line_matches_std_formatting() {
    for (m, s) in [(0u32, 0u32), (9, 9), (10, 59), (99, 5), (100, 0), (71582788, 15), (u32::MAX, u32::MAX)] {
        assert_eq!(fmt_count(m, s), format!("休息中，{:02}:{:02} 后解锁", m, s));
    }
}

#[test]
fn span_is_minutes_and_seconds() {
    assert_eq!(fmt_span(0), "00:00");
    assert_eq!(fmt_span(2), "00:02");
    assert_eq!(fmt_span(59), "00:59");
    assert_eq!(fmt_span(60), "01:00");
    assert_eq!(fmt_span(125), "02:05");
    assert_eq!(fmt_span(3599), "59:59");
    assert_eq!(fmt_span(6000), "100:00");
    assert_eq!(fmt_span(u64::MAX), format!("{:02}:{:02}", u64::MAX / 60, u64::MAX % 60));
}

#[test]
fn decimal_has_no_padding() {
    for n in [0u64, 7, 10, 99, 100, 1234567890, u64::MAX] {
        let mut out = String::from("x");
        push_decimal(&mut out, n);
        assert_eq!(out, format!("x{}", n));
    }
}

#[test]
fn two_digits_pad_below_ten() {
    for n in [0u64, 9, 10, 11, 100] {
        let mut out = String::new();
        push_two_digits(&mut out, n);
        assert_eq!(out, format!("{:02}", n));
    }
}

#[test]
fn clock_appends_to_what_is_there() {
    let mut out = String::from("at ");
    push_clock(&mut out, 5, 7);
    assert_eq!(out, "at 05:07");
}

#[test]
fn now_is_after_the_epoch_and_does_not_jump_back_far() {
    let a = now();
    let b = now();
    assert!(a > 1_000_000_000);
    assert!(b + 5 >= a);
}

#[test]
fn reading_before_the_epoch_counts_as_the_epoch() {
    assert_eq!(timestamp(None), 0);
    assert_eq!(timestamp(Some(0)), 0);
    assert_eq!(timestamp(Some(1_700_000_000)), 1_700_000_000);
    assert_eq!(timestamp(Some(u64::MAX)), u64::MAX);
}
