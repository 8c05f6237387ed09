//! The actuator interface the control loop drives.

use vstd::prelude::*;

verus! {

/// A normalized actuator setting, in millionths of full scale, in
/// `[-1_000_000, 1_000_000]`.
pub type Percentage = i64;

/// One full unit of throttle or steering.
pub const FULL_SCALE: i64 = 1_000_000;

/// Provides an interface to drive the car.  The control loop hands every
/// transport normalized values; translating them into hardware units is
/// the transport's own business.
pub trait Driver {
    /// The last commanded throttle.
    spec fn throttle_spec(&self) -> int;

    /// The last commanded steering.
    spec fn steering_spec(&self) -> int;

    /// Commands the vehicle; the inputs must be normalized.
    fn drive(&mut self, throttle: Percentage, steering: Percentage)
        requires
            -FULL_SCALE <= throttle <= FULL_SCALE,
            -FULL_SCALE <= steering <= FULL_SCALE,
        ensures
            final (self).throttle_spec() == throttle,
            final (self).steering_spec() == steering,
    ;

    /// The last commanded throttle.
    fn get_throttle(&self) -> (throttle: Percentage)
        ensures
            throttle == self.throttle_spec(),
    ;

    /// The last commanded steering.
    fn get_steering(&self) -> (steering: Percentage)
        ensures
            steering == self.steering_spec(),
    ;
}

/// A driver that only remembers the last command: the stand-in transport
/// for tests and simulations.
pub struct MemoryDriver {
    pub throttle: Percentage,
    pub steering: Percentage,
}

impl MemoryDriver {
    /// A driver with both settings neutral.
    pub fn new() -> (driver: MemoryDriver)
        ensures
            driver.throttle == 0,
            driver.steering == 0,
    {
        MemoryDriver { throttle: 0, steering: 0 }
    }
}

impl Driver for MemoryDriver {
    open spec fn throttle_spec(&self) -> int {
        self.throttle as int
    }

    open spec fn steering_spec(&self) -> int {
        self.steering as int
    }

    fn drive(&mut self, throttle: Percentage, steering: Percentage) {
        self.throttle = throttle;
        self.steering = steering;
    }

    fn get_throttle(&self) -> (throttle: Percentage) {
        self.throttle
    }

    fn get_steering(&self) -> (steering: Percentage) {
        self.steering
    }
}

} // verus!
