use std::time::{Duration, SystemTime, SystemTimeError, UNIX_EPOCH};
use vstd::prelude::*;
use vstd::string::StringExecFns;

verus! {

/// `std::time::SystemTime`, a reading of the wall clock. It is only
/// carried from one call to the next; nothing is known of its value.
#[verifier::external_type_specification]
#[verifier::external_body]
pub struct ExSystemTime(SystemTime);

/// `std::time::SystemTimeError`, what comes back when a reading lies
/// before the moment it is compared with. Only its presence is looked at.
#[verifier::external_type_specification]
#[verifier::external_body]
pub struct ExSystemTimeError(SystemTimeError);

/// `SystemTime::now`: the wall clock at the moment of the call. Nothing is
/// claimed of the value.
#[verifier::external_body]
fn wall_clock() -> (t: SystemTime) {
    SystemTime::now()
}

/// `SystemTime::duration_since` against `UNIX_EPOCH`: how long after the
/// epoch `t` lies, or an error when `t` lies before it. Nothing is claimed
/// of the value.
#[verifier::external_body]
fn since_epoch(t: &SystemTime) -> (d: Result<Duration, SystemTimeError>) {
    t.duration_since(UNIX_EPOCH)
}

/// `Duration::as_secs`: the whole seconds of `d`. Nothing is claimed of the
/// value.
#[verifier::external_body]
fn whole_secs(d: &Duration) -> (secs: u64) {
    d.as_secs()
}

/// Seconds since the Unix epoch, truncated to whole seconds. A clock set
/// before the epoch reads as zero, as [`timestamp`] says. What the clock
/// reads is decided by the machine, so nothing is promised of the value,
/// and the timer never trusts it to be monotonic: every computation on
/// timestamps is clamped.
pub fn now() -> (secs: u64) {
    let t = wall_clock();
    let since = match since_epoch(&t) {
        Ok(d) => Some(whole_secs(&d)),
        Err(_) => None,
    };
    timestamp(since)
}

/// The timestamp that stands for a clock reading: the whole seconds since
/// the epoch, or zero for a reading that lies before the epoch.
pub open spec fn reading_secs(since_epoch: Option<u64>) -> u64 {
    match since_epoch {
        Some(secs) => secs,
        None => 0,
    }
}

/// Turns a clock reading into a timestamp. `since_epoch` is the whole
/// seconds that the reading lies after the epoch, or `None` when it lies
/// before it; such a reading counts as the epoch itself.
pub fn timestamp(since_epoch: Option<u64>) -> (secs: u64)
    ensures
        secs == reading_secs(since_epoch),
{
    match since_epoch {
        Some(secs) => secs,
        None => 0,
    }
}

/// The character of a single decimal digit.
pub open spec fn digit_char(d: nat) -> char
    recommends
        d < 10,
{
    if d == 0 {
        '0'
    } else if d == 1 {
        '1'
    } else if d == 2 {
        '2'
    } else if d == 3 {
        '3'
    } else if d == 4 {
        '4'
    } else if d == 5 {
        '5'
    } else if d == 6 {
        '6'
    } else if d == 7 {
        '7'
    } else if d == 8 {
        '8'
    } else {
        '9'
    }
}

/// The decimal digits of `n`, most significant first, without padding.
pub open spec fn decimal(n: nat) -> Seq<char>
    decreases n,
{
    if n < 10 {
        seq![digit_char(n)]
    } else {
        decimal(n / 10).push(digit_char(n % 10))
    }
}

/// `n` in decimal, padded with a leading zero to at least two digits.
pub open spec fn two_digits(n: nat) -> Seq<char> {
    if n < 10 {
        seq!['0', digit_char(n)]
    } else {
        decimal(n)
    }
}

/// `MM:SS` for the given minutes and seconds.
pub open spec fn clock_text(minutes: nat, seconds: nat) -> Seq<char> {
    two_digits(minutes) + seq![':'] + two_digits(seconds)
}

/// `MM:SS` for a span of whole seconds: minutes by division, seconds by
/// remainder.
pub open spec fn span_text(total_secs: nat) -> Seq<char> {
    clock_text(total_secs / 60, total_secs % 60)
}

/// The countdown line of the rest overlay.
pub open spec fn rest_text(minutes: nat, seconds: nat) -> Seq<char> {
    "休息中，"@ + clock_text(minutes, seconds) + " 后解锁"@
}

fn digit_str(d: u64) -> (s: &'static str)
    requires
        d < 10,
    ensures
        s@ == seq![digit_char(d as nat)],
{
    proof {
        reveal_strlit("0");
        reveal_strlit("1");
        reveal_strlit("2");
        reveal_strlit("3");
        reveal_strlit("4");
        reveal_strlit("5");
        reveal_strlit("6");
        reveal_strlit("7");
        reveal_strlit("8");
        reveal_strlit("9");
    }
    let s = if d == 0 {
        "0"
    } else if d == 1 {
        "1"
    } else if d == 2 {
        "2"
    } else if d == 3 {
        "3"
    } else if d == 4 {
        "4"
    } else if d == 5 {
        "5"
    } else if d == 6 {
        "6"
    } else if d == 7 {
        "7"
    } else if d == 8 {
        "8"
    } else {
        "9"
    };
    s
}

/// Appends `n` in decimal to `out`.
pub fn push_decimal(out: &mut String, n: u64)
    ensures
        final(out)@ == old(out)@ + decimal(n as nat),
    decreases n,
{
    if n >= 10 {
        push_decimal(out, n / 10);
    }
    out.append(digit_str(n % 10));
}

/// Appends `n` in decimal to `out`, with a leading zero below ten.
pub fn push_two_digits(out: &mut String, n: u64)
    ensures
        final(out)@ == old(out)@ + two_digits(n as nat),
{
    if n < 10 {
        out.append("0");
        proof {
            reveal_strlit("0");
        }
    }
    push_decimal(out, n);
}

/// Appends `MM:SS` to `out`.
pub fn push_clock(out: &mut String, minutes: u64, seconds: u64)
    ensures
        final(out)@ == old(out)@ + clock_text(minutes as nat, seconds as nat),
{
    push_two_digits(out, minutes);
    out.append(":");
    proof {
        reveal_strlit(":");
    }
    push_two_digits(out, seconds);
}

/// `MM:SS` for a span of whole seconds. Minutes are not wrapped at an hour:
/// 3725 seconds read `62:05`.
pub fn fmt_span(total_secs: u64) -> (text: String)
    ensures
        text@ == span_text(total_secs as nat),
{
    let mut text = String::new();
    push_clock(&mut text, total_secs / 60, total_secs % 60);
    text
}

/// The countdown line of the rest overlay: how long until it unlocks.
pub fn fmt_count(minutes: u32, seconds: u32) -> (text: String)
    ensures
        text@ == rest_text(minutes as nat, seconds as nat),
{
    let mut text = String::from_str("休息中，");
    push_clock(&mut text, minutes as u64, seconds as u64);
    text.append(" 后解锁");
    text
}

} // verus!
