//! Tests of the measurement protocol, replayed over recorded poll
//! sequences, and of the distance conversion.

use distance::protocol::{
    distance_from_pulse, run_measurement, Obs, Outcome, DEFAULT_TIMEOUT_MICROS,
    NANOMETERS_PER_MICROSECOND,
};

const TIMEOUT: u64 = DEFAULT_TIMEOUT_MICROS; // 100 ms

fn obs(high: bool, at: u64) -> Obs {
    Obs { high, at }
}

#[test]
fn pulse_of_one_millisecond_measures_17_15_cm() {
    // Echo goes high for 1 ms: rise seen at 200 us, fall at 1200 us.
    let polls = vec![
        obs(false, 5),
        obs(false, 80),
        obs(true, 200),
        obs(true, 700),
        obs(false, 1200),
    ];
    assert_eq!(run_measurement(0, &polls, TIMEOUT), Outcome::Measured(1000));
    // 1000 us of pulse -> 171_500_000 nm = 17.15 cm.
    let nm: u64 = distance_from_pulse(1000);
    assert_eq!(nm, 171_500_000);
    let cm: f64 = nm as f64 / 10_000_000.0;
    assert!((cm - 17.15).abs() < 1e-9);
}

#[test]
fn rise_at_first_poll_measures_the_pulse() {
    let polls = vec![obs(true, 0), obs(false, 1000)];
    assert_eq!(run_measurement(0, &polls, TIMEOUT), Outcome::Measured(1000));
}

#[test]
fn jittered_pulse_measures_its_width() {
    let polls = vec![
        obs(false, 3),
        obs(false, 50),
        obs(true, 400),
        obs(true, 800),
        obs(true, 1000),
        obs(false, 1600),
    ];
    assert_eq!(run_measurement(0, &polls, TIMEOUT), Outcome::Measured(1200));
}

#[test]
fn echo_never_rises_times_out() {
    // The line stays low; the first poll past the deadline decides.
    let polls = vec![
        obs(false, 40_000),
        obs(false, 90_000),
        obs(false, 100_000),
        obs(false, 100_001),
    ];
    assert_eq!(run_measurement(0, &polls, TIMEOUT), Outcome::TimedOut);
}

#[test]
fn deadline_poll_at_exactly_the_timeout_keeps_waiting() {
    // `more than timeout` is strict: a poll at exactly 100 ms decides nothing.
    let polls = vec![obs(false, 100_000)];
    assert_eq!(run_measurement(0, &polls, TIMEOUT), Outcome::Pending);
}

#[test]
fn first_overdue_poll_decides_whatever_follows() {
    // Even a rise and fall after the overdue poll cannot undo the timeout.
    let polls = vec![obs(false, 100_001), obs(true, 100_002), obs(false, 100_500)];
    assert_eq!(run_measurement(0, &polls, TIMEOUT), Outcome::TimedOut);
}

#[test]
fn stuck_high_times_out_from_the_rise_not_the_trigger() {
    // Rise at 60 ms. Polls at 130 ms and 160 ms are 70 ms and 100 ms into
    // the pulse, so they keep waiting although they are far past 100 ms
    // from the start of the wait; the poll 100.001 ms into the pulse decides.
    let polls = vec![
        obs(false, 10),
        obs(true, 60_000),
        obs(true, 130_000),
        obs(true, 160_000),
        obs(true, 160_001),
    ];
    assert_eq!(run_measurement(0, &polls, TIMEOUT), Outcome::TimedOut);
}

#[test]
fn no_polls_leave_the_measurement_pending() {
    let polls: Vec<Obs> = vec![];
    assert_eq!(run_measurement(0, &polls, TIMEOUT), Outcome::Pending);
}

#[test]
fn clock_reading_before_the_phase_start_keeps_waiting() {
    // Readings that come out of order count as zero elapsed time.
    let polls = vec![obs(false, 0)];
    assert_eq!(run_measurement(500, &polls, 10), Outcome::Pending);
}

#[test]
fn zero_timeout_times_out_on_the_first_late_poll() {
    let polls = vec![obs(false, 0), obs(false, 1)];
    assert_eq!(run_measurement(0, &polls, 0), Outcome::TimedOut);
}

#[test]
fn repeated_runs_are_independent() {
    // A run that times out leaves no trace in a following run.
    let failing = vec![obs(false, 100_001)];
    let fine = vec![obs(true, 10), obs(false, 2010)];
    assert_eq!(run_measurement(0, &failing, TIMEOUT), Outcome::TimedOut);
    assert_eq!(run_measurement(0, &fine, TIMEOUT), Outcome::Measured(2000));
    assert_eq!(run_measurement(0, &failing, TIMEOUT), Outcome::TimedOut);
    assert_eq!(run_measurement(0, &fine, TIMEOUT), Outcome::Measured(2000));
}

#[test]
fn distance_of_zero_pulse_is_zero() {
    assert_eq!(distance_from_pulse(0), 0);
}

#[test]
fn distance_is_linear_in_the_pulse_width() {
    assert_eq!(distance_from_pulse(1), NANOMETERS_PER_MICROSECOND);
    assert_eq!(distance_from_pulse(2), 2 * NANOMETERS_PER_MICROSECOND);
    // 58.31 us of pulse is very close to 1 cm.
    assert_eq!(distance_from_pulse(58), 9_947_000);
}

#[test]
fn distance_saturates_on_an_absurd_pulse() {
    let largest_exact: u64 = u64::MAX / NANOMETERS_PER_MICROSECOND;
    assert_eq!(
        distance_from_pulse(largest_exact),
        largest_exact * NANOMETERS_PER_MICROSECOND
    );
    assert_eq!(distance_from_pulse(largest_exact + 1), u64::MAX);
    assert_eq!(distance_from_pulse(u64::MAX), u64::MAX);
}
