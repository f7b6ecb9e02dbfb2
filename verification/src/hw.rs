//! Trusted declarations of the GPIO and clock capabilities the sensor
//! consumes. Each wrapper's body makes one outside call; Verus believes the
//! signatures here without reading the bodies. Pin levels and clock readings
//! depend on the hardware and the moment of the call, so nothing is promised
//! of them: the verified driver states what holds of every outcome.

use vstd::prelude::*;

verus! {

#[verifier::external_type_specification]
#[verifier::external_body]
pub struct ExGpio(rppal::gpio::Gpio);

#[verifier::external_type_specification]
#[verifier::external_body]
pub struct ExPin(rppal::gpio::Pin);

#[verifier::external_type_specification]
#[verifier::external_body]
pub struct ExOutputPin(rppal::gpio::OutputPin);

#[verifier::external_type_specification]
#[verifier::external_body]
pub struct ExInputPin(rppal::gpio::InputPin);

#[verifier::external_type_specification]
#[verifier::external_body]
pub struct ExGpioError(rppal::gpio::Error);

#[verifier::external_type_specification]
#[verifier::external_body]
pub struct ExInstant(std::time::Instant);

/// Relies on rppal's `Gpio::new`: opens the GPIO peripheral, failing when
/// the board cannot be identified or the device cannot be accessed.
#[verifier::external_body]
pub(crate) fn gpio_new() -> Result<rppal::gpio::Gpio, rppal::gpio::Error> {
    rppal::gpio::Gpio::new()
}

/// Relies on rppal's `Gpio::get`: hands out the pin with the given BCM
/// number, failing when no such pin exists or it is already in use.
#[verifier::external_body]
pub(crate) fn gpio_get(
    gpio: &rppal::gpio::Gpio,
    pin: u8,
) -> Result<rppal::gpio::Pin, rppal::gpio::Error> {
    gpio.get(pin)
}

/// Relies on rppal's `Pin::into_output`: configures the pin as an output.
#[verifier::external_body]
pub(crate) fn pin_into_output(pin: rppal::gpio::Pin) -> rppal::gpio::OutputPin {
    pin.into_output()
}

/// Relies on rppal's `Pin::into_input`: configures the pin as an input.
#[verifier::external_body]
pub(crate) fn pin_into_input(pin: rppal::gpio::Pin) -> rppal::gpio::InputPin {
    pin.into_input()
}

/// Relies on rppal's `OutputPin::set_high`: drives the line to logic high
/// by a register write through the shared GPIO state; the handle itself is
/// left as it was.
#[verifier::external_body]
pub(crate) fn output_set_high(pin: &mut rppal::gpio::OutputPin)
    ensures
        *final(pin) == *old(pin),
{
    pin.set_high()
}

/// Relies on rppal's `OutputPin::set_low`: drives the line to logic low by
/// a register write through the shared GPIO state; the handle itself is
/// left as it was.
#[verifier::external_body]
pub(crate) fn output_set_low(pin: &mut rppal::gpio::OutputPin)
    ensures
        *final(pin) == *old(pin),
{
    pin.set_low()
}

/// Relies on rppal's `InputPin::is_high`: reads the line's logic level at
/// the moment of the call.
#[verifier::external_body]
pub(crate) fn input_is_high(pin: &rppal::gpio::InputPin) -> bool {
    pin.is_high()
}

/// Relies on the `Display` impl of rppal's `gpio::Error`: its description
/// of the failure.
#[verifier::external_body]
pub(crate) fn gpio_error_message(e: &rppal::gpio::Error) -> String {
    format!("{}", e)
}

/// Relies on `std::time::Instant::now`: a reading of the monotonic clock.
#[verifier::external_body]
pub(crate) fn monotonic_now() -> std::time::Instant {
    std::time::Instant::now()
}

/// Relies on `std::time::Instant::elapsed`, with the `Duration` it returns
/// converted to whole microseconds: the time passed since `since` was taken.
#[verifier::external_body]
pub(crate) fn elapsed_micros(since: &std::time::Instant) -> u128 {
    since.elapsed().as_micros()
}

} // verus!
