//! Exact-equality tests that drive the state machine with chosen instants
//! instead of the system clock.

use hrsw::Stopwatch;

#[test]
fn new_is_stopped_and_empty() {
    let s = Stopwatch::new();
    assert!(!s.is_running());
    assert_eq!(s.elapsed_at(123_456), 0);
}

#[test]
fn new_started_at_is_running_and_empty() {
    let s = Stopwatch::new_started_at(1_000);
    assert!(s.is_running());
    assert_eq!(s.elapsed_at(1_000), 0);
    assert_eq!(s.elapsed_at(1_750), 750);
}

#[test]
fn elapsed_while_stopped_ignores_the_clock() {
    let mut s = Stopwatch::new();
    s.start_at(1_000);
    s.stop_at(1_400);
    assert_eq!(s.elapsed_at(2_000), 400);
    assert_eq!(s.elapsed_at(9_999_999), 400);
    assert_eq!(s.elapsed_at(0), 400);
}

#[test]
fn second_start_keeps_the_first_instant() {
    let mut s = Stopwatch::new();
    s.start_at(1_000);
    s.start_at(1_400);
    s.stop_at(1_800);
    assert_eq!(s.elapsed_at(1_800), 800);
}

#[test]
fn start_twice_equals_start_once() {
    let mut once = Stopwatch::new();
    once.start_at(1_000);
    let mut twice = Stopwatch::new();
    twice.start_at(1_000);
    twice.start_at(1_600);
    assert_eq!(once.is_running(), twice.is_running());
    assert_eq!(once.elapsed_at(2_000), twice.elapsed_at(2_000));
}

#[test]
fn completed_intervals_accumulate() {
    let mut s = Stopwatch::new();
    s.start_at(1_000);
    s.stop_at(1_400);
    s.start_at(5_000);
    s.stop_at(5_600);
    assert_eq!(s.elapsed_at(6_000), 1_000);
    assert!(!s.is_running());
}

#[test]
fn reset_discards_run_in_progress() {
    let mut s = Stopwatch::new();
    s.start_at(1_000);
    s.reset();
    assert!(!s.is_running());
    s.start_at(2_000);
    s.stop_at(2_300);
    assert_eq!(s.elapsed_at(3_000), 300);
}

#[test]
fn reset_clears_accumulated_total() {
    let mut s = Stopwatch::new();
    s.start_at(1_000);
    s.stop_at(1_400);
    s.reset();
    assert_eq!(s.elapsed_at(2_000), 0);
    assert!(!s.is_running());
}

#[test]
fn reset_and_start_measures_fresh() {
    let mut s = Stopwatch::new();
    s.start_at(1_000);
    s.stop_at(1_400);
    s.reset_and_start_at(2_000);
    assert!(s.is_running());
    s.stop_at(2_500);
    assert_eq!(s.elapsed_at(3_000), 500);
}

#[test]
fn reset_and_start_equals_reset_then_start() {
    let mut composed = Stopwatch::new();
    composed.start_at(1_000);
    composed.reset();
    composed.start_at(2_000);
    let mut combined = Stopwatch::new();
    combined.start_at(1_000);
    combined.reset_and_start_at(2_000);
    assert_eq!(composed.is_running(), combined.is_running());
    assert_eq!(composed.elapsed_at(2_900), combined.elapsed_at(2_900));
}

#[test]
fn elapsed_grows_with_the_clock_while_running() {
    let mut s = Stopwatch::new();
    s.start_at(1_000);
    assert_eq!(s.elapsed_at(1_000), 0);
    assert_eq!(s.elapsed_at(1_001), 1);
    assert_eq!(s.elapsed_at(2_000), 1_000);
    assert!(s.is_running());
}

#[test]
fn stop_while_stopped_changes_nothing() {
    let mut s = Stopwatch::new();
    s.start_at(1_000);
    s.stop_at(1_400);
    s.stop_at(9_000);
    assert_eq!(s.elapsed_at(9_500), 400);
    assert!(!s.is_running());
}

#[test]
fn clock_stepping_backwards_counts_as_zero() {
    let mut s = Stopwatch::new();
    s.start_at(5_000);
    assert_eq!(s.elapsed_at(4_000), 0);
    s.stop_at(3_000);
    assert_eq!(s.elapsed_at(3_000), 0);
    assert!(!s.is_running());
}

#[test]
fn accumulated_total_saturates_at_the_maximum() {
    let mut s = Stopwatch::new();
    s.start_at(0);
    s.stop_at(u128::MAX);
    assert_eq!(s.elapsed_at(0), u128::MAX);
    s.start_at(0);
    s.stop_at(1_000);
    assert_eq!(s.elapsed_at(0), u128::MAX);
}

#[test]
fn running_read_saturates_at_the_maximum() {
    let mut s = Stopwatch::new();
    s.start_at(0);
    s.stop_at(u128::MAX - 10);
    s.start_at(0);
    assert_eq!(s.elapsed_at(9), u128::MAX - 1);
    assert_eq!(s.elapsed_at(10), u128::MAX);
    assert_eq!(s.elapsed_at(11), u128::MAX);
}

#[test]
fn new_started_runs_until_stopped() {
    let mut s = Stopwatch::new_started();
    assert!(s.is_running());
    s.stop();
    assert!(!s.is_running());
    assert_eq!(s.elapsed(), s.elapsed());
}
