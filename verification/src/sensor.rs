//! The distance sensor: two GPIO pins, a timeout, and one measurement
//! operation that drives the protocol of [`crate::protocol`] on live pins.

use vstd::prelude::*;
use vstd::string::StringExecFns;

use crate::hw;
use crate::protocol::{
    all_keep_waiting, distance_from_pulse, elapsed_between, elapsed_since, keeps_waiting,
    lemma_never_rises_times_out, lemma_pulse_is_measured, lemma_stuck_high_times_out, outcome_of,
    spec_distance_nm, Obs, Outcome, DEFAULT_TIMEOUT_MICROS, TRIGGER_HOLD_MICROS,
};

verus! {

/// Polls a wait loop makes before giving up on a clock or line that never
/// reaches a decision. At any realistic poll rate this budget spans far
/// longer than any timeout a caller could wait out, so it is only ever
/// exhausted by faulty hardware; giving up is reported as a timeout.
const POLL_BUDGET: u64 = u64::MAX;

/// Errors from using the sensor.
#[derive(Debug)]
pub enum SensorError {
    /// The GPIO provider could not be opened, or could not hand out or
    /// configure a pin; carries the provider's own error.
    GpioError(rppal::gpio::Error),
    /// A wait phase of a measurement exceeded the sensor's timeout.
    TimeoutError,
}

impl SensorError {
    /// Describes the error: the provider's own description for
    /// [`SensorError::GpioError`], a fixed sentence for a timeout.
    pub fn message(&self) -> (r: String)
        ensures
            self is TimeoutError ==> r@ == "Timeout waiting for sensor"@,
    {
        match self {
            SensorError::GpioError(e) => hw::gpio_error_message(e),
            SensorError::TimeoutError => String::from_str("Timeout waiting for sensor"),
        }
    }
}

impl From<rppal::gpio::Error> for SensorError {
    /// Wraps a GPIO provider error.
    fn from(err: rppal::gpio::Error) -> (r: SensorError) {
        SensorError::GpioError(err)
    }
}

impl vstd::std_specs::convert::FromSpecImpl<rppal::gpio::Error> for SensorError {
    open spec fn obeys_from_spec() -> bool {
        true
    }

    open spec fn from_spec(err: rppal::gpio::Error) -> SensorError {
        SensorError::GpioError(err)
    }
}

/// Ghost record of one measurement run, written beside the real calls as
/// the run proceeds: the clock reading observed while the trigger line was
/// held high, the reading at which the echo wait began, every echo poll
/// made across both wait phases in order, and whether a wait exhausted its
/// poll budget instead of reaching a decision.
pub struct MeasurementRecord {
    /// Clock reading observed between driving the trigger line high and
    /// releasing it.
    pub held: u64,
    /// A wait ran out of its poll budget (stuck clock or line) before any
    /// decision; the run was abandoned there.
    pub gave_up: bool,
    /// Clock reading at which the rising-edge wait began.
    pub start: u64,
    /// The echo polls made, in order, across both wait phases.
    pub polls: Seq<Obs>,
}

impl MeasurementRecord {
    /// The protocol's verdict on the recorded polls, per [`outcome_of`].
    pub open spec fn verdict(self, timeout: u64) -> Outcome {
        outcome_of(self.start, self.polls, timeout)
    }
}

/// Access to an HC-SR04 class ultrasonic range sensor: an exclusively owned
/// trigger (output) pin and echo (input) pin, and the timeout that bounds
/// each wait phase of a measurement. The pin bindings never change after
/// construction; between calls the trigger line is left at logic low.
pub struct DistanceSensor {
    trigger_pin: rppal::gpio::OutputPin,
    echo_pin: rppal::gpio::InputPin,
    timeout_micros: u64,
    /// Mirrors the level last written to the trigger line.
    trigger_low: Ghost<bool>,
    /// The BCM numbers the pins were requested under.
    trigger_no: Ghost<u8>,
    echo_no: Ghost<u8>,
    /// What the latest measurement did; see [`MeasurementRecord`].
    last_run: Ghost<MeasurementRecord>,
}

/// Reads the clock as whole microseconds since `since`, saturating at
/// `u64::MAX`.
fn elapsed_u64(since: &std::time::Instant) -> u64 {
    let e: u128 = hw::elapsed_micros(since);
    if e > u64::MAX as u128 {
        u64::MAX
    } else {
        e as u64
    }
}

/// Busy-waits on the monotonic clock until a reading shows at least
/// `micros` microseconds passed since `since`, and returns that reading.
fn hold_at_least(since: &std::time::Instant, micros: u64) -> (r: Result<u64, SensorError>)
    ensures
        match r {
            Ok(t) => t >= micros,
            Err(e) => e is TimeoutError,
        },
{
    let mut polled: u64 = 0;
    while polled < POLL_BUDGET
        decreases POLL_BUDGET - polled,
    {
        let t: u64 = elapsed_u64(since);
        if t >= micros {
            return Ok(t);
        }
        polled = polled + 1;
    }
    Err(SensorError::TimeoutError)
}

/// How a wait on the echo line ended.
enum PollVerdict {
    /// The line reached the sought level at this clock reading.
    Reached(u64),
    /// A poll showed the phase's deadline passed first.
    Overdue,
    /// The poll budget ran out with no decision.
    GaveUp,
}

/// Polls `pin` until it reads `target`, or until a poll shows more than
/// `timeout` microseconds passed since the reading `phase_start`. Returns
/// the verdict together with the polls made, the deciding one last.
fn poll_until(
    pin: &rppal::gpio::InputPin,
    base: &std::time::Instant,
    phase_start: u64,
    target: bool,
    timeout: u64,
) -> (r: (PollVerdict, Ghost<Seq<Obs>>))
    ensures
        match r.0 {
            PollVerdict::Reached(at) => r.1@.len() >= 1 && all_keep_waiting(
                r.1@.drop_last(),
                target,
                phase_start,
                timeout,
            ) && r.1@.last() == (Obs { high: target, at }),
            PollVerdict::Overdue => r.1@.len() >= 1 && all_keep_waiting(
                r.1@.drop_last(),
                target,
                phase_start,
                timeout,
            ) && r.1@.last().high != target && elapsed_since(
                r.1@.last().at,
                phase_start,
            ) > timeout,
            PollVerdict::GaveUp => all_keep_waiting(r.1@, target, phase_start, timeout),
        },
{
    let mut polls: Ghost<Seq<Obs>> = Ghost(Seq::empty());
    let mut polled: u64 = 0;
    while polled < POLL_BUDGET
        invariant
            all_keep_waiting(polls@, target, phase_start, timeout),
        decreases POLL_BUDGET - polled,
    {
        let high: bool = hw::input_is_high(pin);
        let now: u64 = elapsed_u64(base);
        let o = Obs { high, at: now };
        if high == target {
            proof {
                assert(polls@.push(o).drop_last() =~= polls@);
            }
            return (PollVerdict::Reached(now), Ghost(polls@.push(o)));
        }
        let waited: u64 = elapsed_between(now, phase_start);
        if waited > timeout {
            proof {
                assert(polls@.push(o).drop_last() =~= polls@);
            }
            return (PollVerdict::Overdue, Ghost(polls@.push(o)));
        }
        proof {
            assert forall|i: int| 0 <= i < polls@.push(o).len() implies keeps_waiting(
                #[trigger] polls@.push(o)[i],
                target,
                phase_start,
                timeout,
            ) by {
                if i < polls@.len() {
                    assert(polls@.push(o)[i] == polls@[i]);
                } else {
                    assert(polls@.push(o)[i] == o);
                }
            }
        }
        polls = Ghost(polls@.push(o));
        polled = polled + 1;
    }
    (PollVerdict::GaveUp, polls)
}

impl DistanceSensor {
    /// The timeout bounding each wait phase, in microseconds.
    pub closed spec fn spec_timeout(self) -> u64 {
        self.timeout_micros
    }

    /// The trigger pin handle.
    pub closed spec fn spec_trigger_pin(self) -> rppal::gpio::OutputPin {
        self.trigger_pin
    }

    /// The echo pin handle.
    pub closed spec fn spec_echo_pin(self) -> rppal::gpio::InputPin {
        self.echo_pin
    }

    /// The BCM number the trigger pin was requested under.
    pub closed spec fn spec_trigger_pin_number(self) -> u8 {
        self.trigger_no@
    }

    /// The BCM number the echo pin was requested under.
    pub closed spec fn spec_echo_pin_number(self) -> u8 {
        self.echo_no@
    }

    /// The record of the latest measurement run.
    pub closed spec fn spec_last_run(self) -> MeasurementRecord {
        self.last_run@
    }

    /// The sensor is idle: the last level written to the trigger line was
    /// low, so the sensor is not pre-triggered.
    pub closed spec fn wf(self) -> bool {
        self.trigger_low@
    }

    /// Everything fixed at construction is the same in both sensors: the
    /// timeout, the two pin handles, and the numbers they were bound under.
    pub open spec fn spec_same_binding(self, other: Self) -> bool {
        &&& self.spec_timeout() == other.spec_timeout()
        &&& self.spec_trigger_pin() == other.spec_trigger_pin()
        &&& self.spec_echo_pin() == other.spec_echo_pin()
        &&& self.spec_trigger_pin_number() == other.spec_trigger_pin_number()
        &&& self.spec_echo_pin_number() == other.spec_echo_pin_number()
    }

    /// Constructs a sensor on the given BCM pin numbers with the default
    /// timeout of 100 ms.
    pub fn new(trigger_pin: u8, echo_pin: u8) -> (r: Result<DistanceSensor, SensorError>)
        ensures
            match r {
                Ok(s) => s.wf() && s.spec_timeout() == DEFAULT_TIMEOUT_MICROS
                    && s.spec_trigger_pin_number() == trigger_pin && s.spec_echo_pin_number()
                    == echo_pin,
                Err(e) => e is GpioError,
            },
    {
        DistanceSensor::new_with_timeout(trigger_pin, echo_pin, DEFAULT_TIMEOUT_MICROS)
    }

    /// Constructs a sensor on the given BCM pin numbers with the given
    /// timeout. Acquires the trigger pin as an output and the echo pin as an
    /// input, and forces the trigger line low; any failure of the GPIO
    /// provider is returned as [`SensorError::GpioError`], and a pin acquired
    /// before the failure is released again by going out of scope.
    pub fn new_with_timeout(trigger_pin: u8, echo_pin: u8, timeout_micros: u64) -> (r: Result<
        DistanceSensor,
        SensorError,
    >)
        ensures
            match r {
                Ok(s) => s.wf() && s.spec_timeout() == timeout_micros
                    && s.spec_trigger_pin_number() == trigger_pin && s.spec_echo_pin_number()
                    == echo_pin,
                Err(e) => e is GpioError,
            },
    {
        let gpio = match hw::gpio_new() {
            Ok(g) => g,
            Err(e) => {
                return Err(SensorError::from(e));
            },
        };
        let trigger = match hw::gpio_get(&gpio, trigger_pin) {
            Ok(p) => p,
            Err(e) => {
                return Err(SensorError::from(e));
            },
        };
        let echo = match hw::gpio_get(&gpio, echo_pin) {
            Ok(p) => p,
            Err(e) => {
                return Err(SensorError::from(e));
            },
        };
        let mut trigger = hw::pin_into_output(trigger);
        let echo = hw::pin_into_input(echo);
        hw::output_set_low(&mut trigger);
        Ok(
            DistanceSensor {
                trigger_pin: trigger,
                echo_pin: echo,
                timeout_micros,
                trigger_low: Ghost(true),
                trigger_no: Ghost(trigger_pin),
                echo_no: Ghost(echo_pin),
                last_run: Ghost(
                    MeasurementRecord { held: 0, gave_up: false, start: 0, polls: Seq::empty() },
                ),
            },
        )
    }

    /// Runs one measurement and returns the width of the echo pulse in
    /// microseconds: emits the trigger pulse (held high for at least
    /// [`TRIGGER_HOLD_MICROS`], then released), waits for the echo line to
    /// rise, then times how long it stays high.
    ///
    /// The run is written into [`Self::spec_last_run`] beside the real
    /// calls, and the result is tied to that record: `Ok(pulse)` exactly
    /// when the protocol's verdict on the recorded polls is
    /// `Measured(pulse)`, and `Err` — always a timeout — exactly when the
    /// verdict on them is `TimedOut`, or when a wait ran out of its poll
    /// budget on hardware that never decides. Unless the run was abandoned
    /// that way, the record shows the trigger line held high for at least
    /// the datasheet's minimum before release. The timeout and the pin
    /// bindings are unchanged and the trigger line ends low, whatever the
    /// outcome.
    pub fn measure_pulse(&mut self) -> (r: Result<u64, SensorError>)
        ensures
            final(self).wf(),
            final(self).spec_same_binding(*old(self)),
            !final(self).spec_last_run().gave_up ==> final(self).spec_last_run().held
                >= TRIGGER_HOLD_MICROS,
            match r {
                Ok(pulse) => ({
                    let rec = final(self).spec_last_run();
                    !rec.gave_up && rec.verdict(old(self).spec_timeout()) == Outcome::Measured(
                        pulse,
                    )
                }),
                Err(e) => e is TimeoutError && ({
                    let rec = final(self).spec_last_run();
                    rec.gave_up || rec.verdict(old(self).spec_timeout()) == Outcome::TimedOut
                }),
            },
    {
        // Trigger phase: drive the line high, hold it at least the
        // datasheet's minimum pulse width, release it.
        hw::output_set_high(&mut self.trigger_pin);
        self.trigger_low = Ghost(false);
        let hold_base = hw::monotonic_now();
        let held = hold_at_least(&hold_base, TRIGGER_HOLD_MICROS);
        hw::output_set_low(&mut self.trigger_pin);
        self.trigger_low = Ghost(true);
        let held_t: u64 = match held {
            Ok(t) => t,
            Err(_) => {
                self.last_run = Ghost(
                    MeasurementRecord { held: 0, gave_up: true, start: 0, polls: Seq::empty() },
                );
                return Err(SensorError::TimeoutError);
            },
        };

        let timeout: u64 = self.timeout_micros;
        let base = hw::monotonic_now();
        let start_wait: u64 = elapsed_u64(&base);

        // Rising-edge wait.
        let (rise, polls_a) = poll_until(&self.echo_pin, &base, start_wait, true, timeout);
        let rise_at: u64 = match rise {
            PollVerdict::Reached(at) => at,
            PollVerdict::Overdue => {
                self.last_run = Ghost(
                    MeasurementRecord {
                        held: held_t,
                        gave_up: false,
                        start: start_wait,
                        polls: polls_a@,
                    },
                );
                proof {
                    lemma_never_rises_times_out(
                        start_wait,
                        polls_a@.drop_last(),
                        polls_a@.last(),
                        Seq::empty(),
                        timeout,
                    );
                    assert(polls_a@.drop_last() + seq![polls_a@.last()] + Seq::<Obs>::empty()
                        =~= polls_a@);
                }
                return Err(SensorError::TimeoutError);
            },
            PollVerdict::GaveUp => {
                self.last_run = Ghost(
                    MeasurementRecord {
                        held: held_t,
                        gave_up: true,
                        start: start_wait,
                        polls: polls_a@,
                    },
                );
                return Err(SensorError::TimeoutError);
            },
        };

        // Pulse-width timing.
        let (fall, polls_b) = poll_until(&self.echo_pin, &base, rise_at, false, timeout);
        match fall {
            PollVerdict::Reached(fall_at) => {
                let pulse: u64 = elapsed_between(fall_at, rise_at);
                self.last_run = Ghost(
                    MeasurementRecord {
                        held: held_t,
                        gave_up: false,
                        start: start_wait,
                        polls: polls_a@ + polls_b@,
                    },
                );
                proof {
                    lemma_pulse_is_measured(
                        start_wait,
                        polls_a@.drop_last(),
                        polls_a@.last(),
                        polls_b@.drop_last(),
                        polls_b@.last(),
                        timeout,
                    );
                    assert(polls_a@.drop_last() + seq![polls_a@.last()] + polls_b@.drop_last()
                        + seq![polls_b@.last()] =~= polls_a@ + polls_b@);
                }
                Ok(pulse)
            },
            PollVerdict::Overdue => {
                self.last_run = Ghost(
                    MeasurementRecord {
                        held: held_t,
                        gave_up: false,
                        start: start_wait,
                        polls: polls_a@ + polls_b@,
                    },
                );
                proof {
                    lemma_stuck_high_times_out(
                        start_wait,
                        polls_a@.drop_last(),
                        polls_a@.last(),
                        polls_b@.drop_last(),
                        polls_b@.last(),
                        Seq::empty(),
                        timeout,
                    );
                    assert(polls_a@.drop_last() + seq![polls_a@.last()] + polls_b@.drop_last()
                        + seq![polls_b@.last()] + Seq::<Obs>::empty() =~= polls_a@ + polls_b@);
                }
                Err(SensorError::TimeoutError)
            },
            PollVerdict::GaveUp => {
                self.last_run = Ghost(
                    MeasurementRecord {
                        held: held_t,
                        gave_up: true,
                        start: start_wait,
                        polls: polls_a@ + polls_b@,
                    },
                );
                Err(SensorError::TimeoutError)
            },
        }
    }

    /// Runs one measurement and reports the one-way distance to the nearest
    /// obstacle in nanometers: the measured pulse width times
    /// [`crate::protocol::NANOMETERS_PER_MICROSECOND`], saturating at
    /// `u64::MAX`. The run is recorded as for [`Self::measure_pulse`], and
    /// the result is tied to the record the same way, with the returned
    /// distance computed from the recorded pulse by [`spec_distance_nm`].
    pub fn get_distance(&mut self) -> (r: Result<u64, SensorError>)
        ensures
            final(self).wf(),
            final(self).spec_same_binding(*old(self)),
            !final(self).spec_last_run().gave_up ==> final(self).spec_last_run().held
                >= TRIGGER_HOLD_MICROS,
            match r {
                Ok(d) => ({
                    let rec = final(self).spec_last_run();
                    !rec.gave_up && (rec.verdict(old(self).spec_timeout())
                        matches Outcome::Measured(pulse) && d == spec_distance_nm(pulse))
                }),
                Err(e) => e is TimeoutError && ({
                    let rec = final(self).spec_last_run();
                    rec.gave_up || rec.verdict(old(self).spec_timeout()) == Outcome::TimedOut
                }),
            },
    {
        match self.measure_pulse() {
            Ok(pulse) => Ok(distance_from_pulse(pulse)),
            Err(e) => Err(e),
        }
    }
}

} // verus!
