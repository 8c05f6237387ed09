//! The control state machine: collision recovery, calibration, and the
//! driving policy.

use control_rust::control::{Control, ControlState};
use control_rust::driver::{Driver, MemoryDriver};
use control_rust::kml_waypoint_generator::KmlWaypointGenerator;
use control_rust::telemetry::{Point, TelemetryState};
use control_rust::telemetry_message::CommandMessage;

fn state_at(x: i64, y: i64, heading: i64, stopped: bool) -> TelemetryState {
    TelemetryState { location: Point { x, y }, heading, speed: 0, stopped }
}

fn running_control(waypoints: Vec<Point>) -> Control<KmlWaypointGenerator, MemoryDriver> {
    let waypoint_generator = KmlWaypointGenerator::new_from_waypoints(waypoints);
    let driver = MemoryDriver::new();
    let mut control = Control::new(waypoint_generator, driver);
    control.state = ControlState::Running;
    control.run = true;
    control
}

#[test]
fn test_collision_recovery() {
    let mut control = running_control(vec![Point { x: 100_000_000, y: 100_000_000 }]);

    // The vehicle reports itself stopped: a collision.
    let now = 1_000_000u64;
    control.run_incremental(&state_at(0, 0, 0, true), now);
    assert!(control.state == ControlState::CollisionRecovery);
    assert!(control.collision_time_ms == now);

    control.collision_recovery(now + 0);
    assert!(control.state == ControlState::CollisionRecovery);
    assert!(control.driver.get_throttle() == 0);
    assert!(control.driver.get_steering() == 0);

    control.collision_recovery(now + 400);
    assert!(control.state == ControlState::CollisionRecovery);
    assert!(control.driver.get_throttle() == 0);
    assert!(control.driver.get_steering() == 0);

    control.collision_recovery(now + 600);
    assert!(control.state == ControlState::CollisionRecovery);
    assert!(control.driver.get_throttle() < 0);
    assert!(control.driver.get_steering() != 0);

    control.collision_recovery(now + 1400);
    assert!(control.state == ControlState::CollisionRecovery);
    assert!(control.driver.get_throttle() < 0);
    assert!(control.driver.get_steering() != 0);

    control.collision_recovery(now + 1600);
    assert!(control.state == ControlState::CollisionRecovery);
    assert!(control.driver.get_throttle() == 0);
    assert!(control.driver.get_steering() == 0);

    control.collision_recovery(now + 1900);
    assert!(control.state == ControlState::CollisionRecovery);
    assert!(control.driver.get_throttle() == 0);
    assert!(control.driver.get_steering() == 0);

    control.collision_recovery(now + 2100);
    assert!(control.state != ControlState::CollisionRecovery);
    assert!(control.state == ControlState::Running);
}

/// A far waypoint nearly dead ahead: full throttle, no steering.
#[test]
fn test_running_far_waypoint_ahead() {
    let mut control = running_control(vec![Point { x: 1_000_000, y: 100_000_000 }]);
    control.run_incremental(&state_at(0, 0, 0, false), 0);
    assert_eq!(control.driver.get_throttle(), 1_000_000);
    assert_eq!(control.driver.get_steering(), 0);
}

/// A waypoint behind the vehicle: maximum steering, throttle capped low.
#[test]
fn test_running_waypoint_behind() {
    let mut control = running_control(vec![Point { x: 1_000_000, y: -100_000_000 }]);
    control.run_incremental(&state_at(0, 0, 0, false), 0);
    assert_eq!(control.driver.get_throttle(), 250_000);
    assert_eq!(control.driver.get_steering().abs(), 1_000_000);
}

/// A stop command supersedes everything; the end of the path stops the
/// run.
#[test]
fn test_stop_and_done() {
    let mut control = running_control(vec![Point { x: 0, y: 0 }]);
    // The single waypoint is instantly reached: the generator is done and
    // the run flag falls.
    control.run_incremental(&state_at(0, 0, 0, false), 0);
    assert!(!control.run || control.waypoint_generator.current_waypoint == 1);
    control.run = false;
    control.run_incremental(&state_at(0, 0, 0, false), 50);
    assert!(control.state == ControlState::WaitingForStart);
}

/// The calibration spin runs for its fixed window from the calibration
/// epoch, then returns to waiting with the run flag down.
#[test]
fn test_calibrate_compass() {
    let mut control = running_control(vec![Point { x: 100_000_000, y: 100_000_000 }]);
    control.state = ControlState::CalibrateCompass;
    control.calibrate_time_ms = 10_000;
    control.calibrate_compass(10_000);
    assert!(control.state == ControlState::CalibrateCompass);
    assert_eq!(control.driver.get_throttle(), 250_000);
    assert_eq!(control.driver.get_steering(), 1_000_000);
    control.calibrate_compass(14_999);
    assert!(control.state == ControlState::CalibrateCompass);
    control.calibrate_compass(15_000);
    assert!(control.state == ControlState::WaitingForStart);
    assert!(!control.run);
}

/// Start and stop flip the run flag; a calibration request is honored
/// only while waiting for a start.
#[test]
fn test_handle_command() {
    let waypoints = vec![Point { x: 100_000_000, y: 100_000_000 }];
    let generator = KmlWaypointGenerator::new_from_waypoints(waypoints);
    let mut control = Control::new(generator, MemoryDriver::new());

    control.handle_command(&CommandMessage::Start, 100);
    assert!(control.run);
    control.handle_command(&CommandMessage::Stop, 200);
    assert!(!control.run);

    control.handle_command(&CommandMessage::CalibrateCompass, 300);
    assert!(control.state == ControlState::CalibrateCompass);
    assert!(control.run);
    assert_eq!(control.calibrate_time_ms, 300);

    // While calibrating (or running), another request is ignored.
    control.handle_command(&CommandMessage::CalibrateCompass, 400);
    assert_eq!(control.calibrate_time_ms, 300);
}

/// A stop command does not cut a collision recovery short: the
/// choreography runs to its end, and only then does the vehicle return
/// to waiting.
#[test]
fn test_stop_does_not_interrupt_recovery() {
    let mut control = running_control(vec![Point { x: 100_000_000, y: 100_000_000 }]);
    control.run_incremental(&state_at(0, 0, 0, true), 1000);
    assert!(control.state == ControlState::CollisionRecovery);

    control.run = false;
    control.run_incremental(&state_at(0, 0, 0, false), 1200);
    assert!(control.state == ControlState::CollisionRecovery);
    assert!(control.driver.get_throttle() == 0);

    // The choreography has elapsed: recovery hands back to Running...
    control.run_incremental(&state_at(0, 0, 0, false), 3200);
    assert!(control.state == ControlState::Running);
    // ...and the pending stop now takes effect.
    control.run_incremental(&state_at(0, 0, 0, false), 3300);
    assert!(control.state == ControlState::WaitingForStart);
}
