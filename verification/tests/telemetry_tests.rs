//! Geometry and heading arithmetic, in millionths of their units.

use control_rust::telemetry::{
    difference_d, distance, is_turn_left, latitude_d_to_m_per_longitude_d,
    latitude_longitude_to_point, m_per_latitude_d, relative_degrees, rotate_degrees_clockwise,
    wrap_degrees, Point,
};
use control_rust::trig::{atan_d, cosine_d, sine_d};

fn assert_close(value: i64, expected: i64, tolerance: i64) {
    assert!(
        (value - expected).abs() < tolerance,
        "{} not within {} of {}",
        value,
        tolerance,
        expected
    );
}

#[test]
fn test_wrap_degrees() {
    for d in 0i64..360 {
        assert_eq!(wrap_degrees(d * 1_000_000), d * 1_000_000);
    }
    assert_eq!(wrap_degrees(0), 0);
    assert_eq!(wrap_degrees(360_000_000), 0);
    assert_eq!(wrap_degrees(-1_000_000), 359_000_000);
    assert_eq!(wrap_degrees(-361_000_000), 359_000_000);
    assert_eq!(wrap_degrees(361_000_000), 1_000_000);
    assert_eq!(wrap_degrees(721_000_000), 1_000_000);
    assert_eq!(wrap_degrees(360_100_000), 100_000);
    assert_eq!(wrap_degrees(100_000), 100_000);
    assert_eq!(wrap_degrees(-100_000), 359_900_000);
    // Folding is idempotent.
    for d in [-721_000_000, -100_000, 0, 100_000, 359_000_000, 720_000_000] {
        assert_eq!(wrap_degrees(wrap_degrees(d)), wrap_degrees(d));
    }
}

#[test]
fn test_difference_d() {
    assert_eq!(difference_d(359_000_000, 0), 1_000_000);
    assert_eq!(difference_d(0, 1_000_000), 1_000_000);
    assert_eq!(difference_d(359_000_000, 1_000_000), 2_000_000);
    assert_eq!(difference_d(360_000_000, 365_000_000), 5_000_000);
    assert_eq!(difference_d(-355_000_000, 365_000_000), 0);
    assert_eq!(difference_d(360_000_000, 0), 0);
    assert_eq!(difference_d(0, 360_000_000), 0);
    assert_eq!(difference_d(361_000_000, 1_000_000), 0);
    assert_eq!(difference_d(1_000_000, 361_000_000), 0);
    assert_eq!(
        difference_d(90_000_000 - 360_000_000, 90_000_000 + 360_000_000),
        0
    );
    // Symmetric, and always within half a turn.
    for (a, b) in [(359_000_000, 1_000_000), (-10_000_000, 200_000_000)] {
        assert_eq!(difference_d(a, b), difference_d(b, a));
        assert!(difference_d(a, b) <= 180_000_000);
    }
}

#[test]
fn test_is_turn_left() {
    assert!(is_turn_left(1_000_000, 0));
    assert!(!is_turn_left(0, 1_000_000));

    assert!(is_turn_left(1_000_000, 359_000_000));
    assert!(!is_turn_left(359_000_000, 1_000_000));

    assert!(is_turn_left(1_000_000, 270_000_000));
    assert!(is_turn_left(0, 270_000_000));
    assert!(is_turn_left(359_000_000, 270_000_000));

    assert!(!is_turn_left(1_000_000, 90_000_000));
    assert!(!is_turn_left(0, 90_000_000));
    assert!(!is_turn_left(359_000_000, 90_000_000));

    // No turn between a heading and itself, and the fixed convention.
    for h in [0, 45_000_000, 180_000_000, 359_000_000] {
        assert!(!is_turn_left(h, h));
    }
    assert!(!is_turn_left(0, 90_000_000));
    assert!(is_turn_left(90_000_000, 0));
}

#[test]
fn test_distance() {
    assert_eq!(
        distance(&Point { x: 0, y: 0 }, &Point { x: 0, y: 0 }),
        0
    );
    assert_eq!(
        distance(&Point { x: 0, y: 0 }, &Point { x: 3_000_000, y: 4_000_000 }),
        5_000_000
    );
    assert_eq!(
        distance(&Point { x: 0, y: 0 }, &Point { x: 4_000_000, y: 3_000_000 }),
        5_000_000
    );
    assert_eq!(
        distance(
            &Point { x: -1_000_000, y: -3_000_000 },
            &Point { x: 2_000_000, y: 1_000_000 }
        ),
        5_000_000
    );
    assert_eq!(
        distance(
            &Point { x: 2_000_000, y: 1_000_000 },
            &Point { x: -1_000_000, y: -3_000_000 }
        ),
        5_000_000
    );
    // The triangle inequality, up to the unit that rounding the two
    // summed distances down can lose.
    let a = Point { x: 0, y: 0 };
    let b = Point { x: 2, y: 2 };
    let c = Point { x: 4, y: 3 };
    assert!(distance(&a, &c) <= distance(&a, &b) + distance(&b, &c) + 1);
}

#[test]
fn test_relative_degrees() {
    let p = |x: i64, y: i64| Point { x: x * 1_000_000, y: y * 1_000_000 };
    assert_eq!(relative_degrees(&p(0, 0), &p(1, 1)), 45_000_000);
    assert_eq!(relative_degrees(&p(1, 1), &p(0, 0)), 225_000_000);
    assert_eq!(relative_degrees(&p(0, 0), &p(2, 2)), 45_000_000);
    assert_eq!(relative_degrees(&p(2, 2), &p(0, 0)), 225_000_000);

    assert_eq!(relative_degrees(&p(0, 0), &p(-1, 1)), 315_000_000);
    assert_eq!(relative_degrees(&p(-1, 1), &p(0, 0)), 135_000_000);
    assert_eq!(relative_degrees(&p(0, 0), &p(-2, 2)), 315_000_000);
    assert_eq!(relative_degrees(&p(-2, 2), &p(0, 0)), 135_000_000);

    assert_eq!(relative_degrees(&p(0, 0), &p(0, 1)), 0);
    assert_eq!(relative_degrees(&p(0, 1), &p(0, 0)), 180_000_000);
    assert_eq!(relative_degrees(&p(0, 0), &p(0, 2)), 0);
    assert_eq!(relative_degrees(&p(0, 2), &p(0, 0)), 180_000_000);

    assert_eq!(relative_degrees(&p(0, 0), &p(1, 0)), 90_000_000);
    assert_eq!(relative_degrees(&p(1, 0), &p(0, 0)), 270_000_000);
    assert_eq!(relative_degrees(&p(0, 0), &p(2, 0)), 90_000_000);
    assert_eq!(relative_degrees(&p(2, 0), &p(0, 0)), 270_000_000);
}

#[test]
fn test_rotate_degrees_clockwise() {
    let base = Point { x: 0, y: 1_000_000 };
    let rotated = rotate_degrees_clockwise(&base, 0);
    assert_eq!((rotated.x, rotated.y), (0, 1_000_000));
    let rotated = rotate_degrees_clockwise(&base, 45_000_000);
    assert_close(rotated.x, 707_107, 10);
    assert_close(rotated.y, 707_107, 10);
    let rotated = rotate_degrees_clockwise(&base, 90_000_000);
    assert_eq!((rotated.x, rotated.y), (1_000_000, 0));
    let rotated = rotate_degrees_clockwise(&base, 180_000_000);
    assert_eq!((rotated.x, rotated.y), (0, -1_000_000));
    let rotated = rotate_degrees_clockwise(&base, 270_000_000);
    assert_eq!((rotated.x, rotated.y), (-1_000_000, 0));
    let rotated = rotate_degrees_clockwise(&base, 360_000_000);
    assert_eq!((rotated.x, rotated.y), (0, 1_000_000));

    let rotated = rotate_degrees_clockwise(&base, 359_000_000);
    assert!(-100_000 < rotated.x && rotated.x < 0);
    assert!(900_000 < rotated.y && rotated.y <= 1_000_000);

    let rotated = rotate_degrees_clockwise(&base, -90_000_000);
    assert_eq!((rotated.x, rotated.y), (-1_000_000, 0));
    let rotated = rotate_degrees_clockwise(&base, -180_000_000);
    assert_eq!((rotated.x, rotated.y), (0, -1_000_000));
    let rotated = rotate_degrees_clockwise(&base, -270_000_000);
    assert_eq!((rotated.x, rotated.y), (1_000_000, 0));
    let rotated = rotate_degrees_clockwise(&base, -360_000_000);
    assert_eq!((rotated.x, rotated.y), (0, 1_000_000));
    let rotated = rotate_degrees_clockwise(&base, 720_000_000);
    assert_eq!((rotated.x, rotated.y), (0, 1_000_000));
    let rotated = rotate_degrees_clockwise(&base, -720_000_000);
    assert_eq!((rotated.x, rotated.y), (0, 1_000_000));

    let skewed = Point { x: 1_000_000, y: 2_000_000 };
    let rotated = rotate_degrees_clockwise(&skewed, 90_000_000);
    assert_eq!((rotated.x, rotated.y), (2_000_000, -1_000_000));
    let rotated = rotate_degrees_clockwise(&skewed, 180_000_000);
    assert_eq!((rotated.x, rotated.y), (-1_000_000, -2_000_000));
    let rotated = rotate_degrees_clockwise(&skewed, 270_000_000);
    assert_eq!((rotated.x, rotated.y), (-2_000_000, 1_000_000));
    let rotated = rotate_degrees_clockwise(&skewed, -90_000_000);
    assert_eq!((rotated.x, rotated.y), (-2_000_000, 1_000_000));
    let rotated = rotate_degrees_clockwise(&skewed, 720_000_000);
    assert_eq!((rotated.x, rotated.y), (1_000_000, 2_000_000));
}

#[test]
fn test_sine_d() {
    assert_close(sine_d(0), 0, 100);
    assert_close(sine_d(1_000_000), 17_450, 10);
    assert_close(sine_d(5_000_000), 87_160, 10);
    assert_close(sine_d(20_000_000), 342_020, 10);
    assert_close(sine_d(45_000_000), 707_110, 10);
    assert_close(sine_d(60_000_000), 866_030, 10);
    assert_eq!(sine_d(90_000_000), 1_000_000);
    assert_eq!(sine_d(180_000_000), 0);
    assert_eq!(sine_d(270_000_000), -1_000_000);
    assert_eq!(sine_d(360_000_000), 0);
    assert_eq!(sine_d(720_000_000), 0);
    assert_eq!(sine_d(1_080_000_000), 0);
    assert_close(sine_d(-45_000_000), -707_110, 10);
    assert_eq!(sine_d(-90_000_000), -1_000_000);
    assert_eq!(sine_d(-180_000_000), 0);
    assert_eq!(sine_d(-270_000_000), 1_000_000);
    assert_eq!(sine_d(-360_000_000), 0);
    assert_eq!(sine_d(-720_000_000), 0);
    assert_eq!(sine_d(-1_080_000_000), 0);
}

#[test]
fn test_cosine_d() {
    assert_eq!(cosine_d(0), 1_000_000);
    assert_close(cosine_d(45_000_000), 707_110, 10);
    assert_eq!(cosine_d(90_000_000), 0);
    assert_eq!(cosine_d(180_000_000), -1_000_000);
    assert_eq!(cosine_d(270_000_000), 0);
    assert_eq!(cosine_d(360_000_000), 1_000_000);
    assert_eq!(cosine_d(-90_000_000), 0);
    assert_eq!(cosine_d(-180_000_000), -1_000_000);
    assert_eq!(cosine_d(-270_000_000), 0);
    assert_eq!(cosine_d(-360_000_000), 1_000_000);
}

#[test]
fn test_atan_d() {
    assert_eq!(atan_d(0, 1_000_000), 0);
    assert_eq!(atan_d(1_000_000, 1_000_000), 45_000_000);
    // atan(0.5) is 26.57 degrees; the octant approximation is within a
    // quarter of a degree.
    assert_close(atan_d(1, 2), 26_570_000, 250_000);
}

#[test]
fn test_latitude_d_to_m_per_longitude_d_spherical() {
    // At the equator, a degree of longitude is a degree of latitude.
    assert_eq!(latitude_d_to_m_per_longitude_d(0), m_per_latitude_d());
    // Symmetrical across the equator.
    for degrees in 0i64..85 {
        assert_eq!(
            latitude_d_to_m_per_longitude_d(degrees * 1_000_000_000),
            latitude_d_to_m_per_longitude_d(-degrees * 1_000_000_000)
        );
    }
    // At the poles, zero.
    assert_eq!(latitude_d_to_m_per_longitude_d(90_000_000_000), 0);
}

#[test]
fn test_latitude_longitude_to_point() {
    // The anchor coordinate maps to the origin.
    let anchor = latitude_longitude_to_point(40_094_180_400, -105_187_209_200);
    assert_eq!((anchor.x, anchor.y), (0, 0));
    // A degree of latitude north is about 111.3 kilometers of +y.
    let north = latitude_longitude_to_point(41_094_180_400, -105_187_209_200);
    assert_eq!(north.x, 0);
    assert_close(north.y, 111_319_000_000, 1_000_000_000);
}
