use task_timer::clock::{format_hms, ClockTime, Moment};
use task_timer::session::{Countdown, Session};

const SEC: u64 = 1_000_000_000;

fn five_minute_session() -> Session {
    Session::countdown(Moment::from_nanos(10 * SEC), 5, ClockTime { hour: 9, minute: 30 })
}

#[test]
fn formats_one_hour_one_minute_one_second() {
    assert_eq!(format_hms(3661), "01:01:01");
}

#[test]
fn formats_zero() {
    assert_eq!(format_hms(0), "00:00:00");
}

#[test]
fn formats_last_two_digit_hour() {
    assert_eq!(format_hms(359_999), "99:59:59");
}

#[test]
fn formats_hundred_hours_with_three_digits() {
    assert_eq!(format_hms(360_000), "100:00:00");
}

#[test]
fn formats_largest_duration() {
    assert_eq!(format_hms(u64::MAX), "5124095576030431:00:15");
}

#[test]
fn every_short_duration_has_eight_characters() {
    for secs in [0u64, 1, 59, 60, 3599, 3600, 86_399, 359_999] {
        let text = format_hms(secs);
        let bytes = text.as_bytes();
        assert_eq!(bytes.len(), 8);
        assert_eq!(bytes[2], b':');
        assert_eq!(bytes[5], b':');
        let h: u64 = text[0..2].parse().unwrap();
        let m: u64 = text[3..5].parse().unwrap();
        let s: u64 = text[6..8].parse().unwrap();
        assert!(m < 60 && s < 60);
        assert_eq!(h * 3600 + m * 60 + s, secs);
    }
}

#[test]
fn remaining_after_one_minute_of_five() {
    let session = five_minute_session();
    let now = Moment::from_nanos(10 * SEC + 60 * SEC);
    assert_eq!(session.countdown_at(now), Some(Countdown::Remaining(240)));
    let shown = session.readout(now);
    let deadline = shown.deadline.unwrap();
    assert_eq!(deadline.time, "00:04:00");
    assert!(!deadline.overrun);
    assert_eq!(deadline.label, "09:30");
    assert_eq!(shown.elapsed, "00:01:00");
}

#[test]
fn overrun_after_six_minutes_of_five() {
    let session = five_minute_session();
    let now = Moment::from_nanos(10 * SEC + 360 * SEC);
    assert_eq!(session.countdown_at(now), Some(Countdown::Overrun(60)));
    let shown = session.readout(now);
    let deadline = shown.deadline.unwrap();
    assert_eq!(deadline.time, "00:01:00");
    assert!(deadline.overrun);
    assert_eq!(shown.elapsed, "00:06:00");
}

#[test]
fn nothing_left_at_the_deadline_itself() {
    let session = five_minute_session();
    let now = Moment::from_nanos(10 * SEC + 300 * SEC);
    assert_eq!(session.countdown_at(now), Some(Countdown::Remaining(0)));
    let one_later = Moment::from_nanos(10 * SEC + 300 * SEC + 1);
    assert_eq!(session.countdown_at(one_later), Some(Countdown::Overrun(0)));
}

#[test]
fn parts_of_a_second_are_dropped() {
    let session = five_minute_session();
    let now = Moment::from_nanos(10 * SEC + 60 * SEC + SEC / 2);
    assert_eq!(session.elapsed_secs(now), 60);
    assert_eq!(session.countdown_at(now), Some(Countdown::Remaining(239)));
}

#[test]
fn elapsed_is_zero_before_the_start() {
    let session = Session::stopwatch(Moment::from_nanos(10 * SEC));
    assert_eq!(session.elapsed_secs(Moment::from_nanos(3 * SEC)), 0);
    assert_eq!(session.readout(Moment::from_nanos(3 * SEC)).elapsed, "00:00:00");
}

#[test]
fn stopwatch_has_no_countdown() {
    let session = Session::stopwatch(Moment::from_nanos(0));
    assert_eq!(session.countdown_at(Moment::from_nanos(SEC)), None);
    assert!(session.readout(Moment::from_nanos(SEC)).deadline.is_none());
}

#[test]
fn zero_minutes_is_due_at_once() {
    let start = Moment::from_nanos(7 * SEC);
    let session = Session::countdown(start, 0, ClockTime { hour: 0, minute: 0 });
    assert_eq!(session.deadline.unwrap().at, start);
    assert_eq!(session.countdown_at(start), Some(Countdown::Remaining(0)));
}

#[test]
fn a_deadline_out_of_reach_is_the_last_moment() {
    let start = Moment::from_nanos(7 * SEC);
    let session = Session::countdown(start, u64::MAX, ClockTime { hour: 0, minute: 0 });
    assert_eq!(session.deadline.unwrap().at, Moment::from_nanos(u64::MAX));
    assert_eq!(start.after_minutes(2), Moment::from_nanos(127 * SEC));
}

#[test]
fn moments_from_seconds() {
    assert_eq!(Moment::from_secs(3), Moment::from_nanos(3 * SEC));
    assert_eq!(Moment::from_secs(u64::MAX), Moment::from_nanos(u64::MAX));
}
