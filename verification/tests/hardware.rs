//! Tests of sensor construction against the real GPIO provider. On a
//! machine without a supported GPIO peripheral the provider cannot be
//! opened, so construction must fail with the provider's error wrapped in
//! `SensorError::GpioError` — and must not report a timeout.

use distance::{DistanceSensor, SensorError};

#[test]
fn construction_without_gpio_fails_with_the_provider_error() {
    match DistanceSensor::new(23, 24) {
        Ok(_) => {
            // Only reachable on a board with a real GPIO peripheral; the
            // default timeout must then have been taken.
        }
        Err(e) => assert!(matches!(e, SensorError::GpioError(_))),
    }
}

#[test]
fn construction_with_timeout_fails_the_same_way() {
    match DistanceSensor::new_with_timeout(5, 6, 250_000) {
        Ok(_) => {}
        Err(e) => assert!(matches!(e, SensorError::GpioError(_))),
    }
}

#[test]
fn provider_errors_convert_into_sensor_errors() {
    let e = SensorError::from(rppal::gpio::Error::PinNotAvailable(99));
    assert!(matches!(e, SensorError::GpioError(rppal::gpio::Error::PinNotAvailable(99))));
}

#[test]
fn timeout_error_describes_itself() {
    assert_eq!(
        SensorError::TimeoutError.message(),
        "Timeout waiting for sensor"
    );
}

#[test]
fn provider_error_carries_the_provider_description() {
    if let Err(e) = DistanceSensor::new(23, 24) {
        // The wording belongs to the provider; it must at least not be
        // mistaken for the timeout sentence.
        assert_ne!(e.message(), "Timeout waiting for sensor");
    }
}
