//! Autonomous rover control core on fixed-point arithmetic.
//!
//! Every quantity is carried as a signed 64-bit integer holding millionths
//! of its unit: positions and distances in millionths of a meter, headings
//! in millionths of a degree, speeds in millionths of a meter per second,
//! and throttle/steering percentages in millionths of full scale.

pub mod control;
pub mod driver;
pub mod filtered_telemetry;
pub mod kml_waypoint_generator;
pub mod location_filter;
pub mod logger;
pub mod math;
pub mod multi_logger;
pub mod nmea;
pub mod stdout_logger;
pub mod sup800f;
pub mod telemetry;
pub mod telemetry_message;
pub mod termios;
pub mod trig;
pub mod util;
pub mod waypoint_generator;
