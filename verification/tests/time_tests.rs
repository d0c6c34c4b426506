use async_runtime::time::{sleep, Sleep};
use std::cell::Cell;

#[test]
fn sleep_deadline_is_start_plus_duration() {
    let s: Sleep = sleep(1_000, 250, true).unwrap();
    assert_eq!(s.deadline(), 1_250);
}

#[test]
fn sleep_elapses_exactly_at_deadline() {
    let s = sleep(100, 50, true).unwrap();
    assert!(!s.has_elapsed(100));
    assert!(!s.has_elapsed(149));
    assert!(s.has_elapsed(150));
    assert!(s.has_elapsed(10_000));
}

#[test]
fn zero_duration_sleep_has_elapsed_at_start() {
    let s = sleep(42, 0, true).unwrap();
    assert!(s.has_elapsed(42));
    assert_eq!(s.remaining(42), 0);
}

#[test]
fn remaining_counts_down_then_saturates() {
    let s = sleep(0, 1_000, true).unwrap();
    assert_eq!(s.remaining(0), 1_000);
    assert_eq!(s.remaining(400), 600);
    assert_eq!(s.remaining(1_000), 0);
    assert_eq!(s.remaining(5_000), 0);
}

#[test]
fn waiting_the_remaining_time_completes_the_timer() {
    let s = sleep(10, 90, true).unwrap();
    let now = 37;
    let rest = s.remaining(now);
    assert!(!s.has_elapsed(now + rest - 1));
    assert!(s.has_elapsed(now + rest));
}

#[test]
fn elapsed_stays_elapsed() {
    let s = sleep(5, 5, true).unwrap();
    for t in 10..20u128 {
        assert!(s.has_elapsed(t));
    }
}

#[test]
fn sleep_at_clock_limit() {
    let s = sleep(u128::MAX - 1, 1, true).unwrap();
    assert_eq!(s.deadline(), u128::MAX);
    assert!(!s.has_elapsed(u128::MAX - 1));
    assert!(s.has_elapsed(u128::MAX));
}

#[test]
fn poll_before_deadline_reads_clock_twice_and_schedules_wakeup() {
    let s = sleep(0, 100, true).unwrap();
    let readings = [30u128, 45u128];
    let calls = Cell::new(0usize);
    let clock = || {
        let i = calls.get();
        calls.set(i + 1);
        readings[i]
    };
    let scheduled = Cell::new(None);
    let (done, unused) = s.poll(clock, |rest| scheduled.set(Some(rest)));
    assert!(!done);
    assert!(unused.is_none());
    assert_eq!(calls.get(), 2);
    assert_eq!(scheduled.get(), Some(55));
}

#[test]
fn poll_after_deadline_is_done_without_wakeup() {
    let s = sleep(0, 100, true).unwrap();
    let calls = Cell::new(0usize);
    let clock = || {
        calls.set(calls.get() + 1);
        100u128
    };
    let scheduled = Cell::new(false);
    let (done, unused) = s.poll(clock, |_| scheduled.set(true));
    assert!(done);
    assert!(unused.is_some());
    assert_eq!(calls.get(), 1);
    assert!(!scheduled.get());
}

#[test]
fn poll_whose_second_reading_passed_deadline_waits_zero() {
    let s = sleep(0, 100, true).unwrap();
    let readings = [99u128, 120u128];
    let calls = Cell::new(0usize);
    let clock = || {
        let i = calls.get();
        calls.set(i + 1);
        readings[i]
    };
    let scheduled = Cell::new(None);
    assert!(!s.poll(clock, |rest| scheduled.set(Some(rest))).0);
    assert_eq!(scheduled.get(), Some(0));
}

#[test]
fn sleep_refuses_deadline_the_clock_cannot_hold() {
    assert!(sleep(10, 20, false).is_none());
    assert!(sleep(0, 0, false).is_none());
}

#[test]
fn sleep_refuses_deadline_past_the_last_reading() {
    assert!(sleep(u128::MAX, 1, true).is_none());
    assert!(sleep(u128::MAX - 5, 6, true).is_none());
    assert_eq!(sleep(u128::MAX - 5, 5, true).unwrap().deadline(), u128::MAX);
}

#[test]
fn zero_timer_is_ready_without_scheduling_a_wakeup() {
    let s = sleep(500, 0, true).unwrap();
    let scheduled = Cell::new(0);
    for _ in 0..3 {
        let (done, unused) = s.poll(|| 500u128, |_| scheduled.set(scheduled.get() + 1));
        assert!(done);
        assert!(unused.is_some());
    }
    assert_eq!(scheduled.get(), 0);
}
