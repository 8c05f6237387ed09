//! The fixed-point matrix algebra and the Kalman filter.

use control_rust::location_filter::{
    add44, determinant, identity, invert, multiply44x44, LocationFilter, Matrix4, Vector4,
};
use control_rust::telemetry::rotate_degrees_clockwise;
use control_rust::telemetry::Point;

fn matrix_from_rows(rows: [[i64; 4]; 4]) -> Matrix4 {
    Matrix4 {
        m00: rows[0][0], m01: rows[0][1], m02: rows[0][2], m03: rows[0][3],
        m10: rows[1][0], m11: rows[1][1], m12: rows[1][2], m13: rows[1][3],
        m20: rows[2][0], m21: rows[2][1], m22: rows[2][2], m23: rows[2][3],
        m30: rows[3][0], m31: rows[3][1], m32: rows[3][2], m33: rows[3][3],
    }
}

fn rows_of(m: &Matrix4) -> [[i64; 4]; 4] {
    [
        [m.m00, m.m01, m.m02, m.m03],
        [m.m10, m.m11, m.m12, m.m13],
        [m.m20, m.m21, m.m22, m.m23],
        [m.m30, m.m31, m.m32, m.m33],
    ]
}

fn assert_matrices_close(a: &Matrix4, b: &Matrix4, tolerance: i64) {
    let ra = rows_of(a);
    let rb = rows_of(b);
    for r in 0..4 {
        for c in 0..4 {
            assert!(
                (ra[r][c] - rb[r][c]).abs() < tolerance,
                "entry {} {}: {} vs {}",
                r,
                c,
                ra[r][c],
                rb[r][c]
            );
        }
    }
}

#[test]
fn test_multiply44x44() {
    let identity_ = identity();
    let out = multiply44x44(&identity_, &identity_);
    assert_matrices_close(&out, &identity_, 1);

    let array = matrix_from_rows([
        [1_000_000; 4],
        [2_000_000; 4],
        [3_000_000; 4],
        [4_000_000; 4],
    ]);
    let out = multiply44x44(&identity_, &array);
    assert_matrices_close(&out, &array, 1);
    let out = multiply44x44(&array, &identity_);
    assert_matrices_close(&out, &array, 1);

    let out = multiply44x44(&array, &array);
    assert_eq!(out.m00, 10_000_000);
    assert_eq!(out.m10, 20_000_000);
}

#[test]
fn test_add() {
    let identity_ = identity();
    let out = add44(&identity_, &identity_);
    let rows = rows_of(&out);
    let expected = rows_of(&identity_);
    for r in 0..4 {
        for c in 0..4 {
            assert_eq!(rows[r][c], 2 * expected[r][c]);
        }
    }
}

#[test]
fn test_invert() {
    let identity_ = identity();
    let (out, ok) = invert(&identity_);
    assert!(ok);
    assert_matrices_close(&out, &identity_, 1);

    let mut rows = rows_of(&identity_);
    for r in 0..4 {
        for c in 0..4 {
            rows[r][c] += ((r * c + r) as i64) * 1_000_000;
        }
    }
    let array = matrix_from_rows(rows);
    assert!(determinant(&array) != 0);
    let (inverse, ok) = invert(&array);
    assert!(ok);
    let product = multiply44x44(&array, &inverse);
    // The fixed-point adjugate inversion is exact here to one millionth.
    assert_matrices_close(&product, &identity_, 10);
}

/// Estimating the location by dead reckoning at a constant speed and
/// heading converges on the true position.
#[test]
fn test_update_constant_speed() {
    let start_x = 100_000_000;
    let start_y = 200_000_000;
    let heading_d = 32_000_000;
    let mut location_filter = LocationFilter::new(start_x, start_y, heading_d);

    assert_eq!(location_filter.estimated_location_m(), (start_x, start_y));

    // This would normally get set by running the filter; set it directly.
    let speed_m_s = 1_800_000;
    location_filter.estimates.v3 = speed_m_s;

    let measurements = Vector4 { v0: 0, v1: 0, v2: heading_d, v3: 0 };
    let compass_observer_matrix = location_filter.compass_observer_matrix;
    let compass_measurement_noise = location_filter.compass_measurement_noise;
    for _ in 0..5 {
        let applied = location_filter.update(
            &measurements,
            &compass_observer_matrix,
            &compass_measurement_noise,
            1_000_000,
        );
        assert!(applied);
    }

    let offset = rotate_degrees_clockwise(
        &Point { x: 0, y: 5 * speed_m_s },
        heading_d,
    );
    let (new_x, new_y) = (start_x + offset.x, start_y + offset.y);
    let (predicted_x, predicted_y) = location_filter.estimated_location_m();
    assert!((predicted_x - new_x).abs() < 100);
    assert!((predicted_y - new_y).abs() < 100);
}

/// The filter is built to trust GPS speed more than dead reckoning.
#[test]
fn test_speed_noise_ordering() {
    let filter = LocationFilter::new(0, 0, 0);
    assert!(filter.dead_reckoning_measurement_noise.m33 > filter.gps_measurement_noise.m33);
}

/// An innovation covariance that stays singular even after the diagonal
/// nudge is reported, and the filter keeps the bare prediction.
#[test]
fn test_update_singular_innovation_covariance() {
    let mut filter = LocationFilter::new(1_000_000, 2_000_000, 0);
    let zero = Matrix4 {
        m00: 0, m01: 0, m02: 0, m03: 0,
        m10: 0, m11: 0, m12: 0, m13: 0,
        m20: 0, m21: 0, m22: 0, m23: 0,
        m30: 0, m31: 0, m32: 0, m33: 0,
    };
    // Two identical rows survive the diagonal nudge, so the innovation
    // covariance cannot be inverted.
    let noise = Matrix4 {
        m00: 1_000_000, m01: 1_000_000, m02: 0, m03: 0,
        m10: 1_000_000, m11: 1_000_000, m12: 0, m13: 0,
        m20: 0, m21: 0, m22: 0, m23: 0,
        m30: 0, m31: 0, m32: 0, m33: 0,
    };
    let measurements = Vector4 { v0: 0, v1: 0, v2: 0, v3: 0 };
    let applied = filter.update(&measurements, &zero, &noise, 1_000_000);
    assert!(!applied);
    // The prediction stands: zero speed leaves the position in place.
    assert_eq!(filter.estimated_location_m(), (1_000_000, 2_000_000));
}
