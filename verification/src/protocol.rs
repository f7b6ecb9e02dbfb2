//! The measurement protocol, modelled over the polls a measurement makes.
//!
//! A measurement is a two-phase bounded wait on the echo line: first wait for
//! the line to rise, then time how long it stays high, aborting either phase
//! once more than `timeout` microseconds have passed since the phase began.
//! Each iteration of a wait is one [`Obs`]: the level read from the line and
//! the monotonic clock reading taken right after it. The protocol's result on
//! any sequence of such polls is [`outcome_of`]; the sensor driver and the
//! pure replay [`run_measurement`] both follow it.

use vstd::prelude::*;

verus! {

/// Distance travelled towards the obstacle per microsecond of echo pulse,
/// in nanometers: sound covers 34300 cm/s in dry air, and the pulse spans
/// the round trip, so the one-way distance grows by 34300 / 2 = 17150 cm
/// per second of pulse, i.e. 171_500 nm per microsecond.
pub const NANOMETERS_PER_MICROSECOND: u64 = 171_500;

/// The timeout a sensor is given when none is chosen explicitly: 100 ms.
pub const DEFAULT_TIMEOUT_MICROS: u64 = 100_000;

/// The least width of the trigger pulse, from the sensor's datasheet.
pub const TRIGGER_HOLD_MICROS: u64 = 10;

/// One poll of the echo line: the level read, and the reading of the
/// monotonic clock (microseconds since the wait began) taken just after it.
#[derive(Clone, Copy, PartialEq, Eq, Structural, Debug)]
pub struct Obs {
    /// The logic level of the echo line, `true` for high.
    pub high: bool,
    /// Monotonic clock reading in microseconds.
    pub at: u64,
}

/// What one measurement comes to over a given sequence of polls.
#[derive(Clone, Copy, PartialEq, Eq, Structural, Debug)]
pub enum Outcome {
    /// The polls ran out before either phase came to a decision.
    Pending,
    /// A phase saw its deadline pass before the level it awaited.
    TimedOut,
    /// The echo line rose and fell again; the payload is the width of the
    /// high pulse in microseconds.
    Measured(u64),
}

/// Microseconds from `earlier` to `later` on the monotonic clock; zero when
/// the readings come out of order.
pub open spec fn elapsed_since(later: u64, earlier: u64) -> u64 {
    if later >= earlier {
        (later - earlier) as u64
    } else {
        0
    }
}

/// Executable counterpart of [`elapsed_since`].
pub fn elapsed_between(later: u64, earlier: u64) -> (e: u64)
    ensures
        e == elapsed_since(later, earlier),
{
    if later >= earlier {
        later - earlier
    } else {
        0
    }
}

/// A poll on which a wait phase keeps waiting: the line is not yet at the
/// sought level and the phase's deadline has not passed.
pub open spec fn keeps_waiting(o: Obs, target: bool, phase_start: u64, timeout: u64) -> bool {
    o.high != target && elapsed_since(o.at, phase_start) <= timeout
}

/// Every poll of `polls` keeps the wait phase waiting.
pub open spec fn all_keep_waiting(polls: Seq<Obs>, target: bool, phase_start: u64, timeout: u64) -> bool {
    forall|i: int| 0 <= i < polls.len() ==> keeps_waiting(#[trigger] polls[i], target, phase_start, timeout)
}

/// Second phase: the echo line is high and the pulse began at the clock
/// reading `pulse_start`. A poll that reads low ends the pulse and measures
/// its width; one past the deadline times the measurement out; any other
/// poll keeps waiting.
pub open spec fn time_pulse(pulse_start: u64, polls: Seq<Obs>, timeout: u64) -> Outcome
    decreases polls.len(),
{
    if polls.len() == 0 {
        Outcome::Pending
    } else if !polls[0].high {
        Outcome::Measured(elapsed_since(polls[0].at, pulse_start))
    } else if elapsed_since(polls[0].at, pulse_start) > timeout {
        Outcome::TimedOut
    } else {
        time_pulse(pulse_start, polls.drop_first(), timeout)
    }
}

/// First phase, begun at the clock reading `start`: a poll that reads high
/// starts the pulse-timing phase at that poll's reading; one past the
/// deadline times the measurement out; any other poll keeps waiting.
pub open spec fn await_rise(start: u64, polls: Seq<Obs>, timeout: u64) -> Outcome
    decreases polls.len(),
{
    if polls.len() == 0 {
        Outcome::Pending
    } else if polls[0].high {
        time_pulse(polls[0].at, polls.drop_first(), timeout)
    } else if elapsed_since(polls[0].at, start) > timeout {
        Outcome::TimedOut
    } else {
        await_rise(start, polls.drop_first(), timeout)
    }
}

/// The result of one whole measurement: both wait phases, run over `polls`
/// from the clock reading `start` at which the wait began.
pub open spec fn outcome_of(start: u64, polls: Seq<Obs>, timeout: u64) -> Outcome {
    await_rise(start, polls, timeout)
}

/// One-way distance in nanometers for an echo pulse of `pulse_micros`
/// microseconds, saturating at `u64::MAX`.
pub open spec fn spec_distance_nm(pulse_micros: u64) -> u64 {
    if pulse_micros * NANOMETERS_PER_MICROSECOND > u64::MAX {
        u64::MAX
    } else {
        (pulse_micros * NANOMETERS_PER_MICROSECOND) as u64
    }
}

/// Converts a measured pulse width to a one-way distance in nanometers.
pub fn distance_from_pulse(pulse_micros: u64) -> (d: u64)
    ensures
        d == spec_distance_nm(pulse_micros),
{
    match pulse_micros.checked_mul(NANOMETERS_PER_MICROSECOND) {
        Some(d) => d,
        None => u64::MAX,
    }
}

/// Replays one measurement over a pre-recorded sequence of polls, deciding
/// at each poll exactly as [`outcome_of`] does.
pub fn run_measurement(start: u64, polls: &Vec<Obs>, timeout: u64) -> (r: Outcome)
    ensures
        r == outcome_of(start, polls@, timeout),
{
    let n: usize = polls.len();
    let mut i: usize = 0;
    let mut in_pulse: bool = false;
    let mut pulse_start: u64 = 0;
    proof {
        assert(polls@.skip(0) =~= polls@);
    }
    while i < n
        invariant
            n == polls@.len(),
            i <= n,
            !in_pulse ==> outcome_of(start, polls@, timeout)
                == await_rise(start, polls@.skip(i as int), timeout),
            in_pulse ==> outcome_of(start, polls@, timeout)
                == time_pulse(pulse_start, polls@.skip(i as int), timeout),
        decreases n - i,
    {
        let o = polls[i];
        proof {
            assert(polls@.skip(i as int)[0] == polls@[i as int]);
            assert(polls@.skip(i as int).drop_first() =~= polls@.skip(i as int + 1));
        }
        if !in_pulse {
            if o.high {
                in_pulse = true;
                pulse_start = o.at;
            } else if elapsed_between(o.at, start) > timeout {
                return Outcome::TimedOut;
            }
        } else {
            if !o.high {
                return Outcome::Measured(elapsed_between(o.at, pulse_start));
            } else if elapsed_between(o.at, pulse_start) > timeout {
                return Outcome::TimedOut;
            }
        }
        i = i + 1;
    }
    proof {
        assert(polls@.skip(n as int) =~= Seq::<Obs>::empty());
    }
    Outcome::Pending
}

/// Polls on which the first phase keeps waiting decide nothing: the outcome
/// over any run beginning with them is the outcome over the rest alone.
pub proof fn lemma_waiting_prefix_elided_rise(start: u64, prefix: Seq<Obs>, rest: Seq<Obs>, timeout: u64)
    requires
        all_keep_waiting(prefix, true, start, timeout),
    ensures
        await_rise(start, prefix + rest, timeout) == await_rise(start, rest, timeout),
    decreases prefix.len(),
{
    if prefix.len() == 0 {
        assert(prefix + rest =~= rest);
    } else {
        let whole = prefix + rest;
        assert(whole[0] == prefix[0]);
        assert(keeps_waiting(prefix[0], true, start, timeout));
        assert(whole.drop_first() =~= prefix.drop_first() + rest);
        assert forall|i: int| 0 <= i < prefix.drop_first().len()
            implies keeps_waiting(#[trigger] prefix.drop_first()[i], true, start, timeout) by {
            assert(prefix.drop_first()[i] == prefix[i + 1]);
        }
        lemma_waiting_prefix_elided_rise(start, prefix.drop_first(), rest, timeout);
    }
}

/// The same for the pulse-timing phase: polls on which it keeps waiting
/// leave its outcome to the remaining polls.
pub proof fn lemma_waiting_prefix_elided_pulse(pulse_start: u64, prefix: Seq<Obs>, rest: Seq<Obs>, timeout: u64)
    requires
        all_keep_waiting(prefix, false, pulse_start, timeout),
    ensures
        time_pulse(pulse_start, prefix + rest, timeout) == time_pulse(pulse_start, rest, timeout),
    decreases prefix.len(),
{
    if prefix.len() == 0 {
        assert(prefix + rest =~= rest);
    } else {
        let whole = prefix + rest;
        assert(whole[0] == prefix[0]);
        assert(keeps_waiting(prefix[0], false, pulse_start, timeout));
        assert(whole.drop_first() =~= prefix.drop_first() + rest);
        assert forall|i: int| 0 <= i < prefix.drop_first().len()
            implies keeps_waiting(#[trigger] prefix.drop_first()[i], false, pulse_start, timeout) by {
            assert(prefix.drop_first()[i] == prefix[i + 1]);
        }
        lemma_waiting_prefix_elided_pulse(pulse_start, prefix.drop_first(), rest, timeout);
    }
}

/// A run in which the echo line rises within the deadline and falls again
/// within the second deadline measures exactly the width of the high pulse:
/// the clock distance from the poll that saw the rise to the poll that saw
/// the fall. The distance reported for it is then that width times
/// [`NANOMETERS_PER_MICROSECOND`], by [`spec_distance_nm`].
pub proof fn lemma_pulse_is_measured(
    start: u64,
    lows: Seq<Obs>,
    rise: Obs,
    highs: Seq<Obs>,
    fall: Obs,
    timeout: u64,
)
    requires
        all_keep_waiting(lows, true, start, timeout),
        rise.high,
        all_keep_waiting(highs, false, rise.at, timeout),
        !fall.high,
    ensures
        outcome_of(start, lows + seq![rise] + highs + seq![fall], timeout)
            == Outcome::Measured(elapsed_since(fall.at, rise.at)),
{
    let tail = seq![rise] + (highs + seq![fall]);
    assert(lows + seq![rise] + highs + seq![fall] =~= lows + tail);
    lemma_waiting_prefix_elided_rise(start, lows, tail, timeout);
    assert(tail[0] == rise);
    assert(tail.drop_first() =~= highs + seq![fall]);
    lemma_waiting_prefix_elided_pulse(rise.at, highs, seq![fall], timeout);
    assert(seq![fall][0] == fall);
}

/// If the echo line never rises and a poll sees the first deadline pass,
/// the measurement times out there, whatever polls would have followed.
pub proof fn lemma_never_rises_times_out(
    start: u64,
    lows: Seq<Obs>,
    overdue: Obs,
    rest: Seq<Obs>,
    timeout: u64,
)
    requires
        all_keep_waiting(lows, true, start, timeout),
        !overdue.high,
        elapsed_since(overdue.at, start) > timeout,
    ensures
        outcome_of(start, lows + seq![overdue] + rest, timeout) == Outcome::TimedOut,
{
    let tail = seq![overdue] + rest;
    assert(lows + seq![overdue] + rest =~= lows + tail);
    lemma_waiting_prefix_elided_rise(start, lows, tail, timeout);
    assert(tail[0] == overdue);
}

/// If the echo line rises but stays high past the second deadline — counted
/// from the poll that saw the rise, not from the start of the wait — the
/// measurement times out there, whatever polls would have followed.
pub proof fn lemma_stuck_high_times_out(
    start: u64,
    lows: Seq<Obs>,
    rise: Obs,
    highs: Seq<Obs>,
    overdue: Obs,
    rest: Seq<Obs>,
    timeout: u64,
)
    requires
        all_keep_waiting(lows, true, start, timeout),
        rise.high,
        all_keep_waiting(highs, false, rise.at, timeout),
        overdue.high,
        elapsed_since(overdue.at, rise.at) > timeout,
    ensures
        outcome_of(start, lows + seq![rise] + highs + seq![overdue] + rest, timeout)
            == Outcome::TimedOut,
{
    let tail = seq![rise] + (highs + (seq![overdue] + rest));
    assert(lows + seq![rise] + highs + seq![overdue] + rest =~= lows + tail);
    lemma_waiting_prefix_elided_rise(start, lows, tail, timeout);
    assert(tail[0] == rise);
    assert(tail.drop_first() =~= highs + (seq![overdue] + rest));
    lemma_waiting_prefix_elided_pulse(rise.at, highs, seq![overdue] + rest, timeout);
    assert((seq![overdue] + rest)[0] == overdue);
}

} // verus!
