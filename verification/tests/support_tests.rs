//! The logging fan-out, the estimator endpoint, and the serial-port
//! constants.

use control_rust::filtered_telemetry::FilteredTelemetry;
use control_rust::multi_logger::{LogLevel, MultiLogger};
use control_rust::stdout_logger::StdoutLogger;
use control_rust::telemetry::{Point, Telemetry};
use control_rust::telemetry_message::{GpsMessage, TelemetryMessage};
use control_rust::termios::{CTermios, CflagBits, ControlCharacters, IflagBits, OflagBits, Speed};

#[test]
fn test_multi_logger() {
    let mut logger: MultiLogger<StdoutLogger> = MultiLogger::new();
    logger.add_logger(StdoutLogger, LogLevel::Warning);
    assert_eq!(logger.loggers.len(), 1);
    assert_eq!(logger.levels.len(), 1);
    logger.log("logged only above the warning severity", LogLevel::Error);
}

#[test]
fn test_filtered_telemetry_gps() {
    let mut telemetry = FilteredTelemetry::new();
    assert!(!telemetry.is_stopped());
    let fix = GpsMessage {
        point: Point { x: 51_000_000, y: 49_000_000 },
        heading: 310_000_000,
        speed: 1_000_000,
        std_dev_x: 2_000_000,
        std_dev_y: 2_000_000,
    };
    let applied = telemetry.handle_message(&TelemetryMessage::Gps(fix), 1_000_000);
    assert!(applied);
    // A GPS fix observing every component pulls the estimate toward it.
    let state = telemetry.get_data();
    assert!((state.location.x - 51_000_000).abs() < 2_000_000);
    assert!((state.location.y - 49_000_000).abs() < 2_000_000);
    assert!(telemetry.get_raw_gps().point.x == 51_000_000);
}

#[test]
fn test_termios_values() {
    let config = CTermios::new();
    assert_eq!(config.c_iflag, 0);
    assert_eq!(config.c_ospeed, 0);
    assert_eq!(Speed::B115200.value(), 0o10002);
    assert_eq!(Speed::from_u32(0o10011), Some(Speed::B1152000));
    assert_eq!(Speed::from_u32(99999), None);
    assert_eq!(ControlCharacters::VMIN.value(), 6);
    assert_eq!(IflagBits::ICRNL.value(), 0o400);
    assert_eq!(OflagBits::OPOST.value(), 0o1);
    assert_eq!(CflagBits::CS8.value(), 0o60);
}
