//! Driver for an HC-SR04 class ultrasonic range sensor.
//!
//! A measurement pulses a trigger line, then times how long the echo line
//! stays high; that duration is proportional to the distance of the nearest
//! obstacle. `protocol` holds the timeout-guarded wait protocol, stated and
//! verified over the sequence of polls a measurement makes; `sensor` drives
//! real GPIO pins through it.

mod hw;
pub mod protocol;
pub mod sensor;

pub use sensor::DistanceSensor;
pub use sensor::SensorError;
