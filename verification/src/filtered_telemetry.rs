//! The estimator endpoint: feeds sensor observations through the Kalman
//! filter and serves the filtered vehicle state.

use vstd::prelude::*;
use crate::location_filter::{
    fix_mul, fix_mul_spec, update_result_spec, LocationFilter, Matrix4, Vector4, ENTRY_BOUND,
};
use crate::math::{clamp_i128, clamp_spec};
use crate::telemetry::{wrap_degrees, wrap_spec, Point, Telemetry, TelemetryState};
use crate::telemetry_message::{CompassMessage, GpsMessage, TelemetryMessage};

verus! {

/// The measurement vector a GPS fix contributes: position, heading and
/// speed, each saturated into the filter's entry range, the heading
/// folded into `[0, 360)`.
pub open spec fn gps_measurements_spec(gps: GpsMessage) -> Vector4 {
    Vector4 {
        v0: clamp_spec(gps.point.x as int, -(ENTRY_BOUND as int), ENTRY_BOUND as int) as i64,
        v1: clamp_spec(gps.point.y as int, -(ENTRY_BOUND as int), ENTRY_BOUND as int) as i64,
        v2: wrap_spec(gps.heading as int) as i64,
        v3: clamp_spec(gps.speed as int, -(ENTRY_BOUND as int), ENTRY_BOUND as int) as i64,
    }
}

/// The GPS measurement noise for one fix: the base noise with the two
/// position entries replaced by the squares of the fix's reported
/// standard deviations.
pub open spec fn gps_noise_spec(base: Matrix4, gps: GpsMessage) -> Matrix4 {
    let sx = clamp_spec(gps.std_dev_x as int, -(ENTRY_BOUND as int), ENTRY_BOUND as int);
    let sy = clamp_spec(gps.std_dev_y as int, -(ENTRY_BOUND as int), ENTRY_BOUND as int);
    Matrix4 { m00: fix_mul_spec(sx, sx) as i64, m11: fix_mul_spec(sy, sy) as i64, ..base }
}

/// The measurement vector a compass reading contributes: the heading
/// alone, folded into `[0, 360)`.
pub open spec fn compass_measurements_spec(compass: CompassMessage) -> Vector4 {
    Vector4 { v0: 0, v1: 0, v2: wrap_spec(compass.heading as int) as i64, v3: 0 }
}

/// Serves telemetry data filtered through the location filter.
pub struct FilteredTelemetry {
    pub throttle: i64,
    pub steering: i64,
    pub gps_message: GpsMessage,
    pub compass_message: CompassMessage,
    pub state: TelemetryState,
    pub filter: LocationFilter,
}

impl FilteredTelemetry {
    /// The estimator's invariant: the filter is well formed and the
    /// served state mirrors its estimates.
    pub open spec fn wf(&self) -> bool {
        &&& self.filter.wf()
        &&& self.state.location == (Point { x: self.filter.estimates.v0, y: self.filter.estimates.v1 })
        &&& self.state.heading == self.filter.estimates.v2
        &&& self.state.speed == self.filter.estimates.v3
    }

    /// An estimator seeded at the course's starting pose, with neutral
    /// actuator settings and placeholder sensor readings.
    pub fn new() -> (telemetry: FilteredTelemetry)
        ensures
            telemetry.wf(),
            telemetry.throttle == 0,
            telemetry.steering == 0,
            telemetry.filter.estimates == (Vector4 {
                v0: 50_000_000,
                v1: 50_000_000,
                v2: 315_000_000,
                v3: 0,
            }),
            !telemetry.state.stopped,
    {
        let filter = LocationFilter::new(50_000_000, 50_000_000, 315_000_000);
        let location = filter.estimated_location_m();
        let heading = filter.estimated_heading_d();
        let speed = filter.estimated_speed_m_s();
        FilteredTelemetry {
            throttle: 0,
            steering: 0,
            gps_message: GpsMessage {
                point: Point { x: 0, y: 0 },
                heading: 0,
                speed: 0,
                std_dev_x: 2_000_000,
                std_dev_y: 2_000_000,
            },
            compass_message: CompassMessage { heading: 0, std_dev: 0 },
            state: TelemetryState {
                location: Point { x: location.0, y: location.1 },
                heading,
                speed,
                stopped: false,
            },
            filter,
        }
    }
}

impl FilteredTelemetry {
    /// Refreshes the served state from the filter's current estimates,
    /// keeping the stopped flag.
    fn refresh_state(&mut self)
        requires
            old(self).filter.wf(),
        ensures
            final (self).filter == old(self).filter,
            final (self).throttle == old(self).throttle,
            final (self).steering == old(self).steering,
            final (self).gps_message == old(self).gps_message,
            final (self).compass_message == old(self).compass_message,
            final (self).state == (TelemetryState {
                location: Point {
                    x: old(self).filter.estimates.v0,
                    y: old(self).filter.estimates.v1,
                },
                heading: old(self).filter.estimates.v2,
                speed: old(self).filter.estimates.v3,
                stopped: old(self).state.stopped,
            }),
    {
        let location = self.filter.estimated_location_m();
        self.state = TelemetryState {
            location: Point { x: location.0, y: location.1 },
            heading: self.filter.estimated_heading_d(),
            speed: self.filter.estimated_speed_m_s(),
            stopped: self.state.stopped,
        };
    }
}

impl Telemetry for FilteredTelemetry {
    open spec fn state_spec(&self) -> TelemetryState {
        self.state
    }

    open spec fn wf_spec(&self) -> bool {
        self.wf()
    }

    fn get_raw_gps(&self) -> &GpsMessage {
        &self.gps_message
    }

    fn get_raw_compass(&self) -> &CompassMessage {
        &self.compass_message
    }

    fn get_data(&self) -> (state: &TelemetryState) {
        &self.state
    }

    /// Stores a normalized drive command; out-of-range values are
    /// rejected and change nothing.
    fn process_drive_command(&mut self, throttle: i64, steering: i64)
        ensures
            -1_000_000 <= throttle <= 1_000_000 && -1_000_000 <= steering <= 1_000_000 ==> final (
            self).throttle == throttle && final (self).steering == steering,
            !(-1_000_000 <= throttle <= 1_000_000 && -1_000_000 <= steering <= 1_000_000) ==> *final (
            self) == *old(self),
            final (self).state == old(self).state,
            final (self).filter == old(self).filter,
            final (self).gps_message == old(self).gps_message,
            final (self).compass_message == old(self).compass_message,
    {
        if throttle < -1_000_000 || throttle > 1_000_000 {
            return ;
        }
        if steering < -1_000_000 || steering > 1_000_000 {
            return ;
        }
        self.throttle = throttle;
        self.steering = steering;
    }

    /// Feeds one observation through the filter and refreshes the served
    /// state from the new estimates.
    #[verifier::rlimit(100)]
    #[verifier::spinoff_prover]
    fn handle_message(&mut self, message: &TelemetryMessage, elapsed_s: i64) -> (applied: bool)
        ensures
            final (self).throttle == old(self).throttle,
            final (self).steering == old(self).steering,
            final (self).state.stopped == old(self).state.stopped,
            match *message {
                TelemetryMessage::Gps(gps) => {
                    let result = update_result_spec(
                        old(self).filter.estimates,
                        old(self).filter.covariance,
                        old(self).filter.process_noise,
                        gps_measurements_spec(gps),
                        old(self).filter.gps_observer_matrix,
                        gps_noise_spec(old(self).filter.gps_measurement_noise, gps),
                        elapsed_s,
                    );
                    &&& final (self).filter.estimates == result.0
                    &&& final (self).filter.covariance == result.1
                    &&& applied == result.2
                    &&& final (self).gps_message == gps
                    &&& final (self).compass_message == old(self).compass_message
                },
                TelemetryMessage::Compass(compass) => {
                    let result = update_result_spec(
                        old(self).filter.estimates,
                        old(self).filter.covariance,
                        old(self).filter.process_noise,
                        compass_measurements_spec(compass),
                        old(self).filter.compass_observer_matrix,
                        old(self).filter.compass_measurement_noise,
                        elapsed_s,
                    );
                    &&& final (self).filter.estimates == result.0
                    &&& final (self).filter.covariance == result.1
                    &&& applied == result.2
                    &&& final (self).compass_message == compass
                    &&& final (self).gps_message == old(self).gps_message
                },
            },
    {
        let applied: bool;
        match message {
            TelemetryMessage::Gps(gps) => {
                let sx = clamp_i128(gps.std_dev_x as i128, ENTRY_BOUND);
                let sy = clamp_i128(gps.std_dev_y as i128, ENTRY_BOUND);
                let noise = Matrix4 {
                    m00: fix_mul(sx, sx),
                    m11: fix_mul(sy, sy),
                    ..self.filter.gps_measurement_noise
                };
                let measurements = Vector4 {
                    v0: clamp_i128(gps.point.x as i128, ENTRY_BOUND),
                    v1: clamp_i128(gps.point.y as i128, ENTRY_BOUND),
                    v2: wrap_degrees(gps.heading),
                    v3: clamp_i128(gps.speed as i128, ENTRY_BOUND),
                };
                let observer = self.filter.gps_observer_matrix;
                proof {
                    assert(measurements == gps_measurements_spec(*gps));
                    assert(noise == gps_noise_spec(self.filter.gps_measurement_noise, *gps));
                }
                applied = self.filter.update(&measurements, &observer, &noise, elapsed_s);
                self.gps_message = *gps;
            },
            TelemetryMessage::Compass(compass) => {
                let measurements = Vector4 {
                    v0: 0,
                    v1: 0,
                    v2: wrap_degrees(compass.heading),
                    v3: 0,
                };
                let observer = self.filter.compass_observer_matrix;
                let noise = self.filter.compass_measurement_noise;
                proof {
                    assert(measurements == compass_measurements_spec(*compass));
                }
                applied = self.filter.update(&measurements, &observer, &noise, elapsed_s);
                self.compass_message = *compass;
            },
        }
        self.refresh_state();
        applied
    }

    fn is_stopped(&self) -> (stopped: bool) {
        self.state.stopped
    }
}

} // verus!
