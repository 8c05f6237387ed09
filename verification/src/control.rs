//! The control state machine and driving policy.
//!
//! Each tick the caller hands in a fresh estimated state and the wall
//! clock in milliseconds; the policy advances waypoints, turns the state
//! machine, and commands the driver.

use vstd::prelude::*;
use crate::driver::{Driver, Percentage, FULL_SCALE};
use crate::math::abs_spec;
use crate::telemetry::{
    bearing_spec, difference_spec, distance_spec, turn_left_spec, difference_d, distance,
    is_turn_left, lemma_distance_symmetric, relative_degrees, Point, TelemetryState,
    MAX_COORDINATE,
};
use crate::telemetry_message::CommandMessage;
use crate::trig::{atan45_spec, atan_d};
use crate::waypoint_generator::WaypointGenerator;

verus! {

/// Milliseconds of wall-clock time.
pub type MilliSeconds = u64;

/// The control loop's modes.
#[derive(Clone, Copy, Debug, PartialEq, Eq, Structural)]
pub enum ControlState {
    CalibrateCompass,
    WaitingForStart,
    Running,
    CollisionRecovery,
}

/// How long the motor stays stopped after a collision, in milliseconds.
pub const RECOVERY_STOP_MS: u64 = 500;

/// How long the vehicle backs up, reversed and turning, in milliseconds.
pub const RECOVERY_BACK_UP_MS: u64 = 1000;

/// The final pause after backing up, in milliseconds.
pub const RECOVERY_PAUSE_MS: u64 = 500;

/// How long the compass calibration spin lasts, in milliseconds.
pub const CALIBRATE_MS: u64 = 5000;

/// Throttle by distance to the waypoint, in millionths: full throttle
/// when far, braking tiers as the vehicle closes in.
pub open spec fn throttle_for_distance_spec(distance: int) -> int {
    if distance > 5_000_000 {
        1_000_000
    } else if distance > 2_000_000 {
        750_000
    } else {
        500_000
    }
}

/// The acceptance cone around the goal heading, in millionths of a
/// degree: the angle the reach disc subtends at the current distance,
/// floored at five degrees.
pub open spec fn steering_range_spec(reach_distance: int, distance: int) -> int {
    let range = 2 * atan45_spec(reach_distance, distance);
    if range < 5_000_000 {
        5_000_000
    } else {
        range
    }
}

/// Steering magnitude by how far the heading is off the goal, in
/// millionths: nothing inside the acceptance cone, then widening tiers.
pub open spec fn steering_magnitude_spec(difference: int, range: int) -> int {
    if difference < range {
        0
    } else if difference < 15_000_000 {
        250_000
    } else if difference < 30_000_000 {
        500_000
    } else if difference < 45_000_000 {
        750_000
    } else {
        1_000_000
    }
}

/// Sharp turns at high speed roll the vehicle, so a large steering
/// magnitude caps the throttle.
pub open spec fn capped_throttle_spec(throttle: int, steering_magnitude: int) -> int {
    if steering_magnitude > 500_000 {
        if throttle > 250_000 {
            250_000
        } else {
            throttle
        }
    } else if steering_magnitude > 250_000 {
        if throttle > 500_000 {
            500_000
        } else {
            throttle
        }
    } else {
        throttle
    }
}

/// The command the driving policy issues toward one waypoint from one
/// estimated pose: `(throttle, steering)`, both in millionths.
pub open spec fn running_command_spec(location: Point, heading: int, waypoint: Point, reach: int) -> (
    int,
    int,
) {
    let distance = distance_spec(location, waypoint);
    let goal_heading = bearing_spec(location, waypoint);
    let difference = difference_spec(heading, goal_heading);
    let range = steering_range_spec(reach, distance);
    let magnitude = steering_magnitude_spec(difference, range);
    let throttle = capped_throttle_spec(throttle_for_distance_spec(distance), magnitude);
    let steering = if turn_left_spec(heading, goal_heading) {
        -magnitude
    } else {
        magnitude
    };
    (throttle, steering)
}

/// What one `running` step leaves behind: every waypoint the vehicle
/// stands within reach of is consumed in order, and then either the path
/// is done and the driver untouched, or the driver holds the policy's
/// command toward the first unreached waypoint.
pub open spec fn running_post<W: WaypointGenerator, D: Driver>(
    pre_generator: W,
    pre_driver: D,
    post_generator: W,
    post_driver: D,
    state: TelemetryState,
) -> bool {
    let waypoints = pre_generator.waypoints_spec();
    let start = pre_generator.current_index_spec();
    let stop = post_generator.current_index_spec();
    let reach = pre_generator.reach_distance_spec();
    &&& post_generator.valid()
    &&& post_generator.waypoints_spec() == waypoints
    &&& post_generator.reach_distance_spec() == reach
    &&& start <= stop <= waypoints.len()
    &&& forall|k: int| start <= k < stop ==> distance_spec(waypoints[k], state.location) < reach
    &&& (stop < waypoints.len() ==> distance_spec(waypoints[stop], state.location) >= reach)
    &&& (stop >= waypoints.len() ==> post_driver.throttle_spec() == pre_driver.throttle_spec()
        && post_driver.steering_spec() == pre_driver.steering_spec())
    &&& (stop < waypoints.len() ==> {
        let command = running_command_spec(
            state.location,
            state.heading as int,
            waypoints[stop],
            reach,
        );
        post_driver.throttle_spec() == command.0 && post_driver.steering_spec() == command.1
    })
}

/// Where the halt and collision checks leave the state machine before
/// this tick's mode is dispatched: a stop command supersedes everything
/// except a collision recovery already in flight, which runs its
/// choreography to the end; and a collision supersedes everything but a
/// calibration in progress.
pub open spec fn checked_state_spec(state: ControlState, run: bool, stopped: bool) -> ControlState {
    if !run {
        if state == ControlState::CollisionRecovery {
            ControlState::CollisionRecovery
        } else {
            ControlState::WaitingForStart
        }
    } else if stopped && state != ControlState::CalibrateCompass {
        ControlState::CollisionRecovery
    } else {
        state
    }
}

/// The central orchestrator: owns the state machine, the waypoint
/// generator and the driver.
pub struct Control<W: WaypointGenerator, D: Driver> {
    pub state: ControlState,
    pub run: bool,
    pub collision_time_ms: MilliSeconds,
    pub calibrate_time_ms: MilliSeconds,
    pub waypoint_generator: W,
    pub driver: D,
}

impl<W: WaypointGenerator, D: Driver> Control<W, D> {
    /// The orchestrator's internal invariant.
    pub open spec fn valid(&self) -> bool {
        self.waypoint_generator.valid()
    }

    /// A controller waiting for a start command.
    pub fn new(waypoint_generator: W, driver: D) -> (control: Control<W, D>)
        requires
            waypoint_generator.valid(),
        ensures
            control.valid(),
            control.state == ControlState::WaitingForStart,
            !control.run,
            control.collision_time_ms == 0,
            control.calibrate_time_ms == 0,
            control.waypoint_generator == waypoint_generator,
            control.driver == driver,
    {
        Control {
            state: ControlState::WaitingForStart,
            run: false,
            collision_time_ms: 0,
            calibrate_time_ms: 0,
            waypoint_generator,
            driver,
        }
    }

    /// Applies one operator command: start and stop set the run flag, and
    /// a calibration request is honored only while waiting for a start.
    pub fn handle_command(&mut self, message: &CommandMessage, now_ms: MilliSeconds)
        ensures
            final (self).state == if *message == CommandMessage::CalibrateCompass && old(
                self,
            ).state == ControlState::WaitingForStart {
                ControlState::CalibrateCompass
            } else {
                old(self).state
            },
            final (self).run == match *message {
                CommandMessage::CalibrateCompass => old(self).state
                    == ControlState::WaitingForStart || old(self).run,
                CommandMessage::Start => true,
                CommandMessage::Stop => false,
            },
            final (self).calibrate_time_ms == if *message == CommandMessage::CalibrateCompass
                && old(self).state == ControlState::WaitingForStart {
                now_ms
            } else {
                old(self).calibrate_time_ms
            },
            final (self).collision_time_ms == old(self).collision_time_ms,
            final (self).waypoint_generator == old(self).waypoint_generator,
            final (self).driver == old(self).driver,
    {
        match message {
            CommandMessage::CalibrateCompass => {
                if self.state == ControlState::WaitingForStart {
                    self.calibrate_time_ms = now_ms;
                    self.state = ControlState::CalibrateCompass;
                    self.run = true;
                }
            },
            CommandMessage::Start => {
                self.run = true;
            },
            CommandMessage::Stop => {
                self.run = false;
            },
        }
    }

    /// Commands the vehicle, with normalized values only.
    fn drive(&mut self, throttle_percentage: Percentage, steering_percentage: Percentage)
        requires
            -FULL_SCALE <= throttle_percentage <= FULL_SCALE,
            -FULL_SCALE <= steering_percentage <= FULL_SCALE,
        ensures
            final (self).driver.throttle_spec() == throttle_percentage,
            final (self).driver.steering_spec() == steering_percentage,
            final (self).state == old(self).state,
            final (self).run == old(self).run,
            final (self).collision_time_ms == old(self).collision_time_ms,
            final (self).calibrate_time_ms == old(self).calibrate_time_ms,
            final (self).waypoint_generator == old(self).waypoint_generator,
    {
        self.driver.drive(throttle_percentage, steering_percentage);
    }

    /// Leaves the idle mode as soon as a run has been commanded.
    fn waiting_for_start(&mut self)
        ensures
            final (self).state == if old(self).run {
                ControlState::Running
            } else {
                old(self).state
            },
            final (self).run == old(self).run,
            final (self).collision_time_ms == old(self).collision_time_ms,
            final (self).calibrate_time_ms == old(self).calibrate_time_ms,
            final (self).waypoint_generator == old(self).waypoint_generator,
            final (self).driver == old(self).driver,
    {
        if !self.run {
            return ;
        }
        self.state = ControlState::Running;
    }

    /// One step of the driving policy: consume every waypoint within
    /// reach, then either stop silently at the end of the path or command
    /// throttle and steering toward the current waypoint.
    fn running(&mut self, state: &TelemetryState)
        requires
            old(self).valid(),
            abs_spec(state.location.x as int) <= MAX_COORDINATE,
            abs_spec(state.location.y as int) <= MAX_COORDINATE,
        ensures
            final (self).valid(),
            running_post(
                old(self).waypoint_generator,
                old(self).driver,
                final (self).waypoint_generator,
                final (self).driver,
                *state,
            ),
            final (self).state == old(self).state,
            final (self).run == old(self).run,
            final (self).collision_time_ms == old(self).collision_time_ms,
            final (self).calibrate_time_ms == old(self).calibrate_time_ms,
    {
        proof {
            self.waypoint_generator.valid_properties();
        }
        while self.waypoint_generator.reached(&state.location)
            invariant
                self.waypoint_generator.valid(),
                self.waypoint_generator.waypoints_spec() == old(
                    self,
                ).waypoint_generator.waypoints_spec(),
                self.waypoint_generator.reach_distance_spec() == old(
                    self,
                ).waypoint_generator.reach_distance_spec(),
                old(self).waypoint_generator.current_index_spec()
                    <= self.waypoint_generator.current_index_spec()
                    <= self.waypoint_generator.waypoints_spec().len(),
                forall|k: int|
                    old(self).waypoint_generator.current_index_spec() <= k
                        < self.waypoint_generator.current_index_spec() ==> distance_spec(
                        old(self).waypoint_generator.waypoints_spec()[k],
                        state.location,
                    ) < old(self).waypoint_generator.reach_distance_spec(),
                self.driver == old(self).driver,
                self.state == old(self).state,
                self.run == old(self).run,
                self.collision_time_ms == old(self).collision_time_ms,
                self.calibrate_time_ms == old(self).calibrate_time_ms,
                abs_spec(state.location.x as int) <= MAX_COORDINATE,
                abs_spec(state.location.y as int) <= MAX_COORDINATE,
            decreases self.waypoint_generator.waypoints_spec().len()
                - self.waypoint_generator.current_index_spec(),
        {
            let ghost reached_index = self.waypoint_generator.current_index_spec();
            proof {
                assert(distance_spec(
                    old(self).waypoint_generator.waypoints_spec()[reached_index],
                    state.location,
                ) < old(self).waypoint_generator.reach_distance_spec());
            }
            self.waypoint_generator.next();
            proof {
                self.waypoint_generator.valid_properties();
            }
            if self.waypoint_generator.done() {
                return ;
            }
        }
        proof {
            self.waypoint_generator.valid_properties();
        }
        let waypoint = match self.waypoint_generator.get_current_raw_waypoint(&state.location) {
            Some(waypoint) => waypoint,
            None => {
                return ;
            },
        };
        proof {
            assert(waypoint == self.waypoint_generator.waypoints_spec()[
                self.waypoint_generator.current_index_spec()]);
            self.waypoint_generator.waypoint_in_range(
                self.waypoint_generator.current_index_spec(),
            );
            lemma_distance_symmetric(waypoint, state.location);
        }
        let distance_m = distance(&state.location, &waypoint);
        let throttle: Percentage = if distance_m > 5_000_000 {
            1_000_000
        } else if distance_m > 2_000_000 {
            750_000
        } else {
            500_000
        };

        // Stay within the heading range that the waypoint's reach disc
        // subtends, floored at five degrees.
        let reach = self.waypoint_generator.reach_distance();
        let mut range = 2 * atan_d(reach, distance_m);
        if range < 5_000_000 {
            range = 5_000_000;
        }

        let goal_heading = relative_degrees(&state.location, &waypoint);
        let difference = difference_d(state.heading, goal_heading);
        let steering_magnitude: Percentage = if difference < range {
            0
        } else if difference < 15_000_000 {
            250_000
        } else if difference < 30_000_000 {
            500_000
        } else if difference < 45_000_000 {
            750_000
        } else {
            1_000_000
        };

        let steering: Percentage = if is_turn_left(state.heading, goal_heading) {
            -steering_magnitude
        } else {
            steering_magnitude
        };

        // Sharp turns at high speed are unsafe: cap the throttle by the
        // steering magnitude.
        let capped_throttle: Percentage = if steering_magnitude > 500_000 {
            if throttle > 250_000 {
                250_000
            } else {
                throttle
            }
        } else if steering_magnitude > 250_000 {
            if throttle > 500_000 {
                500_000
            } else {
                throttle
            }
        } else {
            throttle
        };

        self.drive(capped_throttle, steering);
    }

    /// The collision recovery choreography, purely time-gated from the
    /// collision epoch: stop, back up turning, pause, then resume the
    /// mission — never earlier than the full choreography.
    pub fn collision_recovery(&mut self, now_ms: MilliSeconds)
        ensures
            final (self).run == old(self).run,
            final (self).collision_time_ms == old(self).collision_time_ms,
            final (self).calibrate_time_ms == old(self).calibrate_time_ms,
            final (self).waypoint_generator == old(self).waypoint_generator,
            now_ms < old(self).collision_time_ms + RECOVERY_STOP_MS ==> final (self).state == old(
                self,
            ).state && final (self).driver.throttle_spec() == 0 && final (self).driver.steering_spec() == 0,
            old(self).collision_time_ms + RECOVERY_STOP_MS <= now_ms < old(self).collision_time_ms
                + RECOVERY_STOP_MS + RECOVERY_BACK_UP_MS ==> final (self).state == old(self).state
                && final (self).driver.throttle_spec() == -500_000 && final (self).driver.steering_spec() == -500_000,
            old(self).collision_time_ms + RECOVERY_STOP_MS + RECOVERY_BACK_UP_MS <= now_ms < old(
                self,
            ).collision_time_ms + RECOVERY_STOP_MS + RECOVERY_BACK_UP_MS + RECOVERY_PAUSE_MS
                ==> final (self).state == old(self).state && final (self).driver.throttle_spec()
                == 0 && final (self).driver.steering_spec() == 0,
            now_ms >= old(self).collision_time_ms + RECOVERY_STOP_MS + RECOVERY_BACK_UP_MS
                + RECOVERY_PAUSE_MS ==> final (self).state == ControlState::Running && final (self).driver == old(self).driver,
    {
        let epoch = self.collision_time_ms as u128;
        let now = now_ms as u128;
        if now < epoch + (RECOVERY_STOP_MS as u128) {
            self.drive(0, 0);
        } else if now < epoch + ((RECOVERY_STOP_MS + RECOVERY_BACK_UP_MS) as u128) {
            self.drive(-500_000, -500_000);
        } else if now < epoch + ((RECOVERY_STOP_MS + RECOVERY_BACK_UP_MS + RECOVERY_PAUSE_MS)
            as u128) {
            self.drive(0, 0);
        } else {
            self.state = ControlState::Running;
        }
    }

    /// The compass calibration spin: moderate throttle and full steering
    /// for a fixed duration from the calibration epoch, then back to
    /// waiting.
    pub fn calibrate_compass(&mut self, now_ms: MilliSeconds)
        ensures
            final (self).collision_time_ms == old(self).collision_time_ms,
            final (self).calibrate_time_ms == old(self).calibrate_time_ms,
            final (self).waypoint_generator == old(self).waypoint_generator,
            now_ms < old(self).calibrate_time_ms + CALIBRATE_MS ==> final (self).state == old(
                self,
            ).state && final (self).run == old(self).run && final (self).driver.throttle_spec()
                == 250_000 && final (self).driver.steering_spec() == 1_000_000,
            now_ms >= old(self).calibrate_time_ms + CALIBRATE_MS ==> final (self).state
                == ControlState::WaitingForStart && !final (self).run && final (self).driver == old(
                self,
            ).driver,
    {
        if (now_ms as u128) < (self.calibrate_time_ms as u128) + (CALIBRATE_MS as u128) {
            self.drive(250_000, 1_000_000);
        } else {
            self.state = ControlState::WaitingForStart;
            self.run = false;
        }
    }

    /// Decides what to do and commands the vehicle for this time slice:
    /// the halt and collision checks first, then the end-of-path check,
    /// then this tick's mode.
    pub fn run_incremental(&mut self, state: &TelemetryState, now_ms: MilliSeconds)
        requires
            old(self).valid(),
            abs_spec(state.location.x as int) <= MAX_COORDINATE,
            abs_spec(state.location.y as int) <= MAX_COORDINATE,
        ensures
            final (self).valid(),
            final (self).calibrate_time_ms == old(self).calibrate_time_ms,
            ({
                let checked = checked_state_spec(old(self).state, old(self).run, state.stopped);
                let collided = old(self).run && state.stopped && old(self).state
                    != ControlState::CalibrateCompass;
                let epoch = if collided {
                    now_ms as int
                } else {
                    old(self).collision_time_ms as int
                };
                let run = old(self).run && old(self).waypoint_generator.current_index_spec() < old(
                    self,
                ).waypoint_generator.waypoints_spec().len();
                &&& final (self).collision_time_ms == epoch
                &&& (checked == ControlState::WaitingForStart ==> final (self).state == (if run {
                    ControlState::Running
                } else {
                    ControlState::WaitingForStart
                }) && final (self).run == run && final (self).driver == old(self).driver && final (self).waypoint_generator == old(self).waypoint_generator)
                &&& (checked == ControlState::Running ==> final (self).state
                    == ControlState::Running && final (self).run == run && running_post(
                    old(self).waypoint_generator,
                    old(self).driver,
                    final (self).waypoint_generator,
                    final (self).driver,
                    *state,
                ))
                &&& (checked == ControlState::CollisionRecovery ==> final (self).run == run
                    && final (self).waypoint_generator == old(self).waypoint_generator)
                &&& (checked == ControlState::CollisionRecovery && (now_ms as int) < epoch
                    + RECOVERY_STOP_MS ==> final (self).state == ControlState::CollisionRecovery
                    && final (self).driver.throttle_spec() == 0 && final (self).driver.steering_spec() == 0)
                &&& (checked == ControlState::CollisionRecovery && epoch + RECOVERY_STOP_MS <= (
                now_ms as int) < epoch + RECOVERY_STOP_MS + RECOVERY_BACK_UP_MS ==> final (self).state == ControlState::CollisionRecovery && final (self).driver.throttle_spec() == -500_000 && final (self).driver.steering_spec()
                    == -500_000)
                &&& (checked == ControlState::CollisionRecovery && epoch + RECOVERY_STOP_MS
                    + RECOVERY_BACK_UP_MS <= (now_ms as int) < epoch + RECOVERY_STOP_MS
                    + RECOVERY_BACK_UP_MS + RECOVERY_PAUSE_MS ==> final (self).state
                    == ControlState::CollisionRecovery && final (self).driver.throttle_spec() == 0
                    && final (self).driver.steering_spec() == 0)
                &&& (checked == ControlState::CollisionRecovery && (now_ms as int) >= epoch
                    + RECOVERY_STOP_MS + RECOVERY_BACK_UP_MS + RECOVERY_PAUSE_MS ==> final (self).state == ControlState::Running && final (self).driver == old(self).driver)
                &&& (checked == ControlState::CalibrateCompass ==> final (self).waypoint_generator == old(self).waypoint_generator)
                &&& (checked == ControlState::CalibrateCompass && (now_ms as int) < old(
                    self,
                ).calibrate_time_ms + CALIBRATE_MS ==> final (self).state
                    == ControlState::CalibrateCompass && final (self).run == run && final (self).driver.throttle_spec() == 250_000 && final (self).driver.steering_spec()
                    == 1_000_000)
                &&& (checked == ControlState::CalibrateCompass && (now_ms as int) >= old(
                    self,
                ).calibrate_time_ms + CALIBRATE_MS ==> final (self).state
                    == ControlState::WaitingForStart && !final (self).run && final (self).driver
                    == old(self).driver)
            }),
    {
        // Halting the car supersedes everything except a recovery already
        // in flight; a collision supersedes everything but a calibration
        // in progress.
        if !self.run {
            if self.state != ControlState::CollisionRecovery {
                self.state = ControlState::WaitingForStart;
            }
        } else if state.stopped && self.state != ControlState::CalibrateCompass {
            self.collision_time_ms = now_ms;
            self.state = ControlState::CollisionRecovery;
        }

        if self.waypoint_generator.done() {
            self.run = false;
        }

        match self.state {
            ControlState::WaitingForStart => self.waiting_for_start(),
            ControlState::Running => self.running(state),
            ControlState::CollisionRecovery => self.collision_recovery(now_ms),
            ControlState::CalibrateCompass => self.calibrate_compass(now_ms),
        }
    }
}

} // verus!
