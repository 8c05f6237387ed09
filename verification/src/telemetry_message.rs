//! Messages exchanged between the sensor side and the estimator, and the
//! commands that drive the control state machine.

use vstd::prelude::*;
use crate::telemetry::{Degrees, Meter, MetersPerSecond, Point};

verus! {

/// One GPS fix: position, course and speed with their uncertainties.
#[derive(Clone, Copy, Debug, PartialEq, Eq, Structural)]
pub struct GpsMessage {
    pub point: Point,
    pub heading: Degrees,
    pub speed: MetersPerSecond,
    pub std_dev_x: Meter,
    pub std_dev_y: Meter,
}

/// One compass reading: heading with its uncertainty.
#[derive(Clone, Copy, Debug, PartialEq, Eq, Structural)]
pub struct CompassMessage {
    pub heading: Degrees,
    pub std_dev: Degrees,
}

/// A command from the operator, delivered asynchronously to the control
/// loop.
#[derive(Clone, Copy, Debug, PartialEq, Eq, Structural)]
pub enum CommandMessage {
    CalibrateCompass,
    Start,
    Stop,
}

/// A sensor observation on its way to the estimator.
#[derive(Clone, Copy, Debug, PartialEq, Eq, Structural)]
pub enum TelemetryMessage {
    Gps(GpsMessage),
    Compass(CompassMessage),
}

} // verus!
