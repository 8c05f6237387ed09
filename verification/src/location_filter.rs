//! The location estimator: a four-state linear Kalman filter over
//! position, heading and speed, in fixed-point arithmetic.
//!
//! Matrices hold millionths (a fixed-point 1.0 is `1_000_000`), and every
//! arithmetic step saturates at `ENTRY_BOUND`, so the whole update
//! pipeline is total; the contracts state each step as the textbook
//! formula over the fixed-point operations.

use vstd::prelude::*;
use crate::math::{clamp_spec, tdiv, clamp_i128, div_i128, abs_spec};
use crate::telemetry::{wrap_spec, wrap_degrees, rotate_degrees_clockwise, rotate_x_spec, rotate_y_spec, Point, Meter, Degrees, MetersPerSecond, FULL_TURN, HALF_TURN};

verus! {

/// The saturation bound of every matrix and vector entry (a fixed-point
/// billion).
pub const ENTRY_BOUND: i64 = 1_000_000_000_000_000;

/// A product of two fixed-point values, rescaled and saturated.
pub open spec fn scaled_clamped(x: int) -> int {
    clamp_spec(tdiv(x, 1_000_000), -(ENTRY_BOUND as int), ENTRY_BOUND as int)
}

/// The fixed-point dot product of four entry pairs.
pub open spec fn fix4_spec(
    a0: int, b0: int, a1: int, b1: int, a2: int, b2: int, a3: int, b3: int,
) -> int {
    scaled_clamped(a0 * b0 + a1 * b1 + a2 * b2 + a3 * b3)
}

/// The fixed-point product of two entries.
pub open spec fn fix_mul_spec(a: int, b: int) -> int {
    scaled_clamped(a * b)
}

/// A saturating sum of two entries.
pub open spec fn sat_add_spec(a: int, b: int) -> int {
    clamp_spec(a + b, -(ENTRY_BOUND as int), ENTRY_BOUND as int)
}

/// A saturating difference of two entries.
pub open spec fn sat_sub_spec(a: int, b: int) -> int {
    clamp_spec(a - b, -(ENTRY_BOUND as int), ENTRY_BOUND as int)
}

/// The fixed-point quotient of two entries, saturated.
pub open spec fn fix_div_spec(a: int, b: int) -> int
    recommends
        b != 0,
{
    if b > 0 {
        clamp_spec(tdiv(a * 1_000_000, b), -(ENTRY_BOUND as int), ENTRY_BOUND as int)
    } else {
        clamp_spec(tdiv(-(a * 1_000_000), -b), -(ENTRY_BOUND as int), ENTRY_BOUND as int)
    }
}

/// A 4 x 4 fixed-point matrix, row by row.
#[derive(Clone, Copy, Debug, PartialEq, Eq, Structural)]
pub struct Matrix4 {
    pub m00: i64,
    pub m01: i64,
    pub m02: i64,
    pub m03: i64,
    pub m10: i64,
    pub m11: i64,
    pub m12: i64,
    pub m13: i64,
    pub m20: i64,
    pub m21: i64,
    pub m22: i64,
    pub m23: i64,
    pub m30: i64,
    pub m31: i64,
    pub m32: i64,
    pub m33: i64,
}

/// A fixed-point column vector of the four state components: x, y,
/// heading, speed.
#[derive(Clone, Copy, Debug, PartialEq, Eq, Structural)]
pub struct Vector4 {
    pub v0: i64,
    pub v1: i64,
    pub v2: i64,
    pub v3: i64,
}

/// Every entry within the saturation bound.
pub open spec fn mat_bounded(m: Matrix4) -> bool {
    &&& -ENTRY_BOUND <= m.m00 <= ENTRY_BOUND
    &&& -ENTRY_BOUND <= m.m01 <= ENTRY_BOUND
    &&& -ENTRY_BOUND <= m.m02 <= ENTRY_BOUND
    &&& -ENTRY_BOUND <= m.m03 <= ENTRY_BOUND
    &&& -ENTRY_BOUND <= m.m10 <= ENTRY_BOUND
    &&& -ENTRY_BOUND <= m.m11 <= ENTRY_BOUND
    &&& -ENTRY_BOUND <= m.m12 <= ENTRY_BOUND
    &&& -ENTRY_BOUND <= m.m13 <= ENTRY_BOUND
    &&& -ENTRY_BOUND <= m.m20 <= ENTRY_BOUND
    &&& -ENTRY_BOUND <= m.m21 <= ENTRY_BOUND
    &&& -ENTRY_BOUND <= m.m22 <= ENTRY_BOUND
    &&& -ENTRY_BOUND <= m.m23 <= ENTRY_BOUND
    &&& -ENTRY_BOUND <= m.m30 <= ENTRY_BOUND
    &&& -ENTRY_BOUND <= m.m31 <= ENTRY_BOUND
    &&& -ENTRY_BOUND <= m.m32 <= ENTRY_BOUND
    &&& -ENTRY_BOUND <= m.m33 <= ENTRY_BOUND
}

/// Every component within the saturation bound.
pub open spec fn vec_bounded(v: Vector4) -> bool {
    &&& -ENTRY_BOUND <= v.v0 <= ENTRY_BOUND
    &&& -ENTRY_BOUND <= v.v1 <= ENTRY_BOUND
    &&& -ENTRY_BOUND <= v.v2 <= ENTRY_BOUND
    &&& -ENTRY_BOUND <= v.v3 <= ENTRY_BOUND
}

/// The fixed-point identity matrix.
#[verifier::opaque]
pub open spec fn identity_spec() -> Matrix4 {
    Matrix4 {
        m00: 1_000_000,
        m01: 0,
        m02: 0,
        m03: 0,
        m10: 0,
        m11: 1_000_000,
        m12: 0,
        m13: 0,
        m20: 0,
        m21: 0,
        m22: 1_000_000,
        m23: 0,
        m30: 0,
        m31: 0,
        m32: 0,
        m33: 1_000_000,
    }
}

/// The fixed-point matrix product.
#[verifier::opaque]
pub open spec fn mul44_spec(a: Matrix4, b: Matrix4) -> Matrix4 {
    Matrix4 {
        m00: fix4_spec(a.m00 as int, b.m00 as int, a.m01 as int, b.m10 as int, a.m02 as int, b.m20 as int, a.m03 as int, b.m30 as int) as i64,
        m01: fix4_spec(a.m00 as int, b.m01 as int, a.m01 as int, b.m11 as int, a.m02 as int, b.m21 as int, a.m03 as int, b.m31 as int) as i64,
        m02: fix4_spec(a.m00 as int, b.m02 as int, a.m01 as int, b.m12 as int, a.m02 as int, b.m22 as int, a.m03 as int, b.m32 as int) as i64,
        m03: fix4_spec(a.m00 as int, b.m03 as int, a.m01 as int, b.m13 as int, a.m02 as int, b.m23 as int, a.m03 as int, b.m33 as int) as i64,
        m10: fix4_spec(a.m10 as int, b.m00 as int, a.m11 as int, b.m10 as int, a.m12 as int, b.m20 as int, a.m13 as int, b.m30 as int) as i64,
        m11: fix4_spec(a.m10 as int, b.m01 as int, a.m11 as int, b.m11 as int, a.m12 as int, b.m21 as int, a.m13 as int, b.m31 as int) as i64,
        m12: fix4_spec(a.m10 as int, b.m02 as int, a.m11 as int, b.m12 as int, a.m12 as int, b.m22 as int, a.m13 as int, b.m32 as int) as i64,
        m13: fix4_spec(a.m10 as int, b.m03 as int, a.m11 as int, b.m13 as int, a.m12 as int, b.m23 as int, a.m13 as int, b.m33 as int) as i64,
        m20: fix4_spec(a.m20 as int, b.m00 as int, a.m21 as int, b.m10 as int, a.m22 as int, b.m20 as int, a.m23 as int, b.m30 as int) as i64,
        m21: fix4_spec(a.m20 as int, b.m01 as int, a.m21 as int, b.m11 as int, a.m22 as int, b.m21 as int, a.m23 as int, b.m31 as int) as i64,
        m22: fix4_spec(a.m20 as int, b.m02 as int, a.m21 as int, b.m12 as int, a.m22 as int, b.m22 as int, a.m23 as int, b.m32 as int) as i64,
        m23: fix4_spec(a.m20 as int, b.m03 as int, a.m21 as int, b.m13 as int, a.m22 as int, b.m23 as int, a.m23 as int, b.m33 as int) as i64,
        m30: fix4_spec(a.m30 as int, b.m00 as int, a.m31 as int, b.m10 as int, a.m32 as int, b.m20 as int, a.m33 as int, b.m30 as int) as i64,
        m31: fix4_spec(a.m30 as int, b.m01 as int, a.m31 as int, b.m11 as int, a.m32 as int, b.m21 as int, a.m33 as int, b.m31 as int) as i64,
        m32: fix4_spec(a.m30 as int, b.m02 as int, a.m31 as int, b.m12 as int, a.m32 as int, b.m22 as int, a.m33 as int, b.m32 as int) as i64,
        m33: fix4_spec(a.m30 as int, b.m03 as int, a.m31 as int, b.m13 as int, a.m32 as int, b.m23 as int, a.m33 as int, b.m33 as int) as i64,
    }
}

/// The fixed-point matrix-vector product.
#[verifier::opaque]
pub open spec fn mul41_spec(a: Matrix4, v: Vector4) -> Vector4 {
    Vector4 {
        v0: fix4_spec(a.m00 as int, v.v0 as int, a.m01 as int, v.v1 as int, a.m02 as int, v.v2 as int, a.m03 as int, v.v3 as int) as i64,
        v1: fix4_spec(a.m10 as int, v.v0 as int, a.m11 as int, v.v1 as int, a.m12 as int, v.v2 as int, a.m13 as int, v.v3 as int) as i64,
        v2: fix4_spec(a.m20 as int, v.v0 as int, a.m21 as int, v.v1 as int, a.m22 as int, v.v2 as int, a.m23 as int, v.v3 as int) as i64,
        v3: fix4_spec(a.m30 as int, v.v0 as int, a.m31 as int, v.v1 as int, a.m32 as int, v.v2 as int, a.m33 as int, v.v3 as int) as i64,
    }
}

/// The saturating matrix sum.
#[verifier::opaque]
pub open spec fn add44_spec(a: Matrix4, b: Matrix4) -> Matrix4 {
    Matrix4 {
        m00: sat_add_spec(a.m00 as int, b.m00 as int) as i64,
        m01: sat_add_spec(a.m01 as int, b.m01 as int) as i64,
        m02: sat_add_spec(a.m02 as int, b.m02 as int) as i64,
        m03: sat_add_spec(a.m03 as int, b.m03 as int) as i64,
        m10: sat_add_spec(a.m10 as int, b.m10 as int) as i64,
        m11: sat_add_spec(a.m11 as int, b.m11 as int) as i64,
        m12: sat_add_spec(a.m12 as int, b.m12 as int) as i64,
        m13: sat_add_spec(a.m13 as int, b.m13 as int) as i64,
        m20: sat_add_spec(a.m20 as int, b.m20 as int) as i64,
        m21: sat_add_spec(a.m21 as int, b.m21 as int) as i64,
        m22: sat_add_spec(a.m22 as int, b.m22 as int) as i64,
        m23: sat_add_spec(a.m23 as int, b.m23 as int) as i64,
        m30: sat_add_spec(a.m30 as int, b.m30 as int) as i64,
        m31: sat_add_spec(a.m31 as int, b.m31 as int) as i64,
        m32: sat_add_spec(a.m32 as int, b.m32 as int) as i64,
        m33: sat_add_spec(a.m33 as int, b.m33 as int) as i64,
    }
}

/// The saturating matrix difference.
#[verifier::opaque]
pub open spec fn sub44_spec(a: Matrix4, b: Matrix4) -> Matrix4 {
    Matrix4 {
        m00: sat_sub_spec(a.m00 as int, b.m00 as int) as i64,
        m01: sat_sub_spec(a.m01 as int, b.m01 as int) as i64,
        m02: sat_sub_spec(a.m02 as int, b.m02 as int) as i64,
        m03: sat_sub_spec(a.m03 as int, b.m03 as int) as i64,
        m10: sat_sub_spec(a.m10 as int, b.m10 as int) as i64,
        m11: sat_sub_spec(a.m11 as int, b.m11 as int) as i64,
        m12: sat_sub_spec(a.m12 as int, b.m12 as int) as i64,
        m13: sat_sub_spec(a.m13 as int, b.m13 as int) as i64,
        m20: sat_sub_spec(a.m20 as int, b.m20 as int) as i64,
        m21: sat_sub_spec(a.m21 as int, b.m21 as int) as i64,
        m22: sat_sub_spec(a.m22 as int, b.m22 as int) as i64,
        m23: sat_sub_spec(a.m23 as int, b.m23 as int) as i64,
        m30: sat_sub_spec(a.m30 as int, b.m30 as int) as i64,
        m31: sat_sub_spec(a.m31 as int, b.m31 as int) as i64,
        m32: sat_sub_spec(a.m32 as int, b.m32 as int) as i64,
        m33: sat_sub_spec(a.m33 as int, b.m33 as int) as i64,
    }
}

/// The transpose.
#[verifier::opaque]
pub open spec fn transpose_spec(a: Matrix4) -> Matrix4 {
    Matrix4 {
        m00: a.m00,
        m01: a.m10,
        m02: a.m20,
        m03: a.m30,
        m10: a.m01,
        m11: a.m11,
        m12: a.m21,
        m13: a.m31,
        m20: a.m02,
        m21: a.m12,
        m22: a.m22,
        m23: a.m32,
        m30: a.m03,
        m31: a.m13,
        m32: a.m23,
        m33: a.m33,
    }
}

/// The saturating vector sum.
#[verifier::opaque]
pub open spec fn add41_spec(a: Vector4, b: Vector4) -> Vector4 {
    Vector4 {
        v0: sat_add_spec(a.v0 as int, b.v0 as int) as i64,
        v1: sat_add_spec(a.v1 as int, b.v1 as int) as i64,
        v2: sat_add_spec(a.v2 as int, b.v2 as int) as i64,
        v3: sat_add_spec(a.v3 as int, b.v3 as int) as i64,
    }
}

/// The saturating vector difference.
#[verifier::opaque]
pub open spec fn sub41_spec(a: Vector4, b: Vector4) -> Vector4 {
    Vector4 {
        v0: sat_sub_spec(a.v0 as int, b.v0 as int) as i64,
        v1: sat_sub_spec(a.v1 as int, b.v1 as int) as i64,
        v2: sat_sub_spec(a.v2 as int, b.v2 as int) as i64,
        v3: sat_sub_spec(a.v3 as int, b.v3 as int) as i64,
    }
}

/// The fixed-point determinant, by the cofactor expansion into the six
/// 2 x 2 minors of the top and bottom halves.
#[verifier::opaque]
pub open spec fn det_spec(m: Matrix4) -> int {
    let s0 = sat_sub_spec(fix_mul_spec(m.m00 as int, m.m11 as int), fix_mul_spec(m.m10 as int, m.m01 as int));
    let s1 = sat_sub_spec(fix_mul_spec(m.m00 as int, m.m12 as int), fix_mul_spec(m.m10 as int, m.m02 as int));
    let s2 = sat_sub_spec(fix_mul_spec(m.m00 as int, m.m13 as int), fix_mul_spec(m.m10 as int, m.m03 as int));
    let s3 = sat_sub_spec(fix_mul_spec(m.m01 as int, m.m12 as int), fix_mul_spec(m.m11 as int, m.m02 as int));
    let s4 = sat_sub_spec(fix_mul_spec(m.m01 as int, m.m13 as int), fix_mul_spec(m.m11 as int, m.m03 as int));
    let s5 = sat_sub_spec(fix_mul_spec(m.m02 as int, m.m13 as int), fix_mul_spec(m.m12 as int, m.m03 as int));
    let c5 = sat_sub_spec(fix_mul_spec(m.m22 as int, m.m33 as int), fix_mul_spec(m.m32 as int, m.m23 as int));
    let c4 = sat_sub_spec(fix_mul_spec(m.m21 as int, m.m33 as int), fix_mul_spec(m.m31 as int, m.m23 as int));
    let c3 = sat_sub_spec(fix_mul_spec(m.m21 as int, m.m32 as int), fix_mul_spec(m.m31 as int, m.m22 as int));
    let c2 = sat_sub_spec(fix_mul_spec(m.m20 as int, m.m33 as int), fix_mul_spec(m.m30 as int, m.m23 as int));
    let c1 = sat_sub_spec(fix_mul_spec(m.m20 as int, m.m32 as int), fix_mul_spec(m.m30 as int, m.m22 as int));
    let c0 = sat_sub_spec(fix_mul_spec(m.m20 as int, m.m31 as int), fix_mul_spec(m.m30 as int, m.m21 as int));
    sat_add_spec(
        sat_sub_spec(
            sat_add_spec(
                sat_add_spec(sat_sub_spec(fix_mul_spec(s0, c5), fix_mul_spec(s1, c4)), fix_mul_spec(s2, c3)),
                fix_mul_spec(s3, c2),
            ),
            fix_mul_spec(s4, c1),
        ),
        fix_mul_spec(s5, c0),
    )
}

/// The singularity fallback: every exactly-zero diagonal entry is nudged
/// to the fixed-point one.  A sensor that observes only some state
/// components leaves zero rows in the innovation covariance; filling the
/// untouched diagonal makes the matrix invertible without disturbing the
/// inverse in the observed components.
#[verifier::opaque]
pub open spec fn perturb_spec(m: Matrix4) -> Matrix4 {
    Matrix4 {
        m00: if m.m00 == 0 { 1_000_000 } else { m.m00 },
        m01: m.m01,
        m02: m.m02,
        m03: m.m03,
        m10: m.m10,
        m11: if m.m11 == 0 { 1_000_000 } else { m.m11 },
        m12: m.m12,
        m13: m.m13,
        m20: m.m20,
        m21: m.m21,
        m22: if m.m22 == 0 { 1_000_000 } else { m.m22 },
        m23: m.m23,
        m30: m.m30,
        m31: m.m31,
        m32: m.m32,
        m33: if m.m33 == 0 { 1_000_000 } else { m.m33 },
    }
}

/// The fixed-point inverse by the closed-form adjugate, scaled by the
/// fixed-point reciprocal of the determinant.  Meaningful only when the
/// determinant is nonzero.
#[verifier::opaque]
pub open spec fn inverse_spec(m: Matrix4) -> Matrix4
    recommends
        det_spec(m) != 0,
{
    let s0 = sat_sub_spec(fix_mul_spec(m.m00 as int, m.m11 as int), fix_mul_spec(m.m10 as int, m.m01 as int));
    let s1 = sat_sub_spec(fix_mul_spec(m.m00 as int, m.m12 as int), fix_mul_spec(m.m10 as int, m.m02 as int));
    let s2 = sat_sub_spec(fix_mul_spec(m.m00 as int, m.m13 as int), fix_mul_spec(m.m10 as int, m.m03 as int));
    let s3 = sat_sub_spec(fix_mul_spec(m.m01 as int, m.m12 as int), fix_mul_spec(m.m11 as int, m.m02 as int));
    let s4 = sat_sub_spec(fix_mul_spec(m.m01 as int, m.m13 as int), fix_mul_spec(m.m11 as int, m.m03 as int));
    let s5 = sat_sub_spec(fix_mul_spec(m.m02 as int, m.m13 as int), fix_mul_spec(m.m12 as int, m.m03 as int));
    let c5 = sat_sub_spec(fix_mul_spec(m.m22 as int, m.m33 as int), fix_mul_spec(m.m32 as int, m.m23 as int));
    let c4 = sat_sub_spec(fix_mul_spec(m.m21 as int, m.m33 as int), fix_mul_spec(m.m31 as int, m.m23 as int));
    let c3 = sat_sub_spec(fix_mul_spec(m.m21 as int, m.m32 as int), fix_mul_spec(m.m31 as int, m.m22 as int));
    let c2 = sat_sub_spec(fix_mul_spec(m.m20 as int, m.m33 as int), fix_mul_spec(m.m30 as int, m.m23 as int));
    let c1 = sat_sub_spec(fix_mul_spec(m.m20 as int, m.m32 as int), fix_mul_spec(m.m30 as int, m.m22 as int));
    let c0 = sat_sub_spec(fix_mul_spec(m.m20 as int, m.m31 as int), fix_mul_spec(m.m30 as int, m.m21 as int));
    let invdet = fix_div_spec(1_000_000, det_spec(m));
    Matrix4 {
        m00: fix_mul_spec(sat_add_spec(sat_sub_spec(fix_mul_spec(m.m11 as int, c5), fix_mul_spec(m.m12 as int, c4)), fix_mul_spec(m.m13 as int, c3)), invdet) as i64,
        m01: fix_mul_spec(sat_sub_spec(sat_sub_spec(fix_mul_spec(m.m02 as int, c4), fix_mul_spec(m.m01 as int, c5)), fix_mul_spec(m.m03 as int, c3)), invdet) as i64,
        m02: fix_mul_spec(sat_add_spec(sat_sub_spec(fix_mul_spec(m.m31 as int, s5), fix_mul_spec(m.m32 as int, s4)), fix_mul_spec(m.m33 as int, s3)), invdet) as i64,
        m03: fix_mul_spec(sat_sub_spec(sat_sub_spec(fix_mul_spec(m.m22 as int, s4), fix_mul_spec(m.m21 as int, s5)), fix_mul_spec(m.m23 as int, s3)), invdet) as i64,
        m10: fix_mul_spec(sat_sub_spec(sat_sub_spec(fix_mul_spec(m.m12 as int, c2), fix_mul_spec(m.m10 as int, c5)), fix_mul_spec(m.m13 as int, c1)), invdet) as i64,
        m11: fix_mul_spec(sat_add_spec(sat_sub_spec(fix_mul_spec(m.m00 as int, c5), fix_mul_spec(m.m02 as int, c2)), fix_mul_spec(m.m03 as int, c1)), invdet) as i64,
        m12: fix_mul_spec(sat_sub_spec(sat_sub_spec(fix_mul_spec(m.m32 as int, s2), fix_mul_spec(m.m30 as int, s5)), fix_mul_spec(m.m33 as int, s1)), invdet) as i64,
        m13: fix_mul_spec(sat_add_spec(sat_sub_spec(fix_mul_spec(m.m20 as int, s5), fix_mul_spec(m.m22 as int, s2)), fix_mul_spec(m.m23 as int, s1)), invdet) as i64,
        m20: fix_mul_spec(sat_add_spec(sat_sub_spec(fix_mul_spec(m.m10 as int, c4), fix_mul_spec(m.m11 as int, c2)), fix_mul_spec(m.m13 as int, c0)), invdet) as i64,
        m21: fix_mul_spec(sat_sub_spec(sat_sub_spec(fix_mul_spec(m.m01 as int, c2), fix_mul_spec(m.m00 as int, c4)), fix_mul_spec(m.m03 as int, c0)), invdet) as i64,
        m22: fix_mul_spec(sat_add_spec(sat_sub_spec(fix_mul_spec(m.m30 as int, s4), fix_mul_spec(m.m31 as int, s2)), fix_mul_spec(m.m33 as int, s0)), invdet) as i64,
        m23: fix_mul_spec(sat_sub_spec(sat_sub_spec(fix_mul_spec(m.m21 as int, s2), fix_mul_spec(m.m20 as int, s4)), fix_mul_spec(m.m23 as int, s0)), invdet) as i64,
        m30: fix_mul_spec(sat_sub_spec(sat_sub_spec(fix_mul_spec(m.m11 as int, c1), fix_mul_spec(m.m10 as int, c3)), fix_mul_spec(m.m12 as int, c0)), invdet) as i64,
        m31: fix_mul_spec(sat_add_spec(sat_sub_spec(fix_mul_spec(m.m00 as int, c3), fix_mul_spec(m.m01 as int, c1)), fix_mul_spec(m.m02 as int, c0)), invdet) as i64,
        m32: fix_mul_spec(sat_sub_spec(sat_sub_spec(fix_mul_spec(m.m31 as int, s1), fix_mul_spec(m.m30 as int, s3)), fix_mul_spec(m.m32 as int, s0)), invdet) as i64,
        m33: fix_mul_spec(sat_add_spec(sat_sub_spec(fix_mul_spec(m.m20 as int, s3), fix_mul_spec(m.m21 as int, s1)), fix_mul_spec(m.m22 as int, s0)), invdet) as i64,
    }
}

/// The fixed-point dot product of four entry pairs, saturated.
fn fix4(a0: i64, b0: i64, a1: i64, b1: i64, a2: i64, b2: i64, a3: i64, b3: i64) -> (r: i64)
    requires
        -ENTRY_BOUND <= a0 <= ENTRY_BOUND,
        -ENTRY_BOUND <= b0 <= ENTRY_BOUND,
        -ENTRY_BOUND <= a1 <= ENTRY_BOUND,
        -ENTRY_BOUND <= b1 <= ENTRY_BOUND,
        -ENTRY_BOUND <= a2 <= ENTRY_BOUND,
        -ENTRY_BOUND <= b2 <= ENTRY_BOUND,
        -ENTRY_BOUND <= a3 <= ENTRY_BOUND,
        -ENTRY_BOUND <= b3 <= ENTRY_BOUND,
    ensures
        r as int == fix4_spec(
            a0 as int, b0 as int, a1 as int, b1 as int, a2 as int, b2 as int, a3 as int, b3 as int,
        ),
        -ENTRY_BOUND <= r <= ENTRY_BOUND,
{
    proof {
        crate::math::lemma_mul_abs_bound(a0 as int, ENTRY_BOUND as int, b0 as int, ENTRY_BOUND as int);
        crate::math::lemma_mul_abs_bound(a1 as int, ENTRY_BOUND as int, b1 as int, ENTRY_BOUND as int);
        crate::math::lemma_mul_abs_bound(a2 as int, ENTRY_BOUND as int, b2 as int, ENTRY_BOUND as int);
        crate::math::lemma_mul_abs_bound(a3 as int, ENTRY_BOUND as int, b3 as int, ENTRY_BOUND as int);
    }
    let sum: i128 = (a0 as i128) * (b0 as i128) + (a1 as i128) * (b1 as i128) + (a2 as i128) * (
    b2 as i128) + (a3 as i128) * (b3 as i128);
    clamp_i128(div_i128(sum, 1_000_000), ENTRY_BOUND)
}

/// The fixed-point product of two entries, saturated.
pub fn fix_mul(a: i64, b: i64) -> (r: i64)
    requires
        -ENTRY_BOUND <= a <= ENTRY_BOUND,
        -ENTRY_BOUND <= b <= ENTRY_BOUND,
    ensures
        r as int == fix_mul_spec(a as int, b as int),
        -ENTRY_BOUND <= r <= ENTRY_BOUND,
{
    proof {
        crate::math::lemma_mul_abs_bound(a as int, ENTRY_BOUND as int, b as int, ENTRY_BOUND as int);
    }
    clamp_i128(div_i128((a as i128) * (b as i128), 1_000_000), ENTRY_BOUND)
}

/// The saturating sum of two entries.
fn sat_add(a: i64, b: i64) -> (r: i64)
    ensures
        r as int == sat_add_spec(a as int, b as int),
        -ENTRY_BOUND <= r <= ENTRY_BOUND,
{
    clamp_i128((a as i128) + (b as i128), ENTRY_BOUND)
}

/// The saturating difference of two entries.
fn sat_sub(a: i64, b: i64) -> (r: i64)
    ensures
        r as int == sat_sub_spec(a as int, b as int),
        -ENTRY_BOUND <= r <= ENTRY_BOUND,
{
    clamp_i128((a as i128) - (b as i128), ENTRY_BOUND)
}

/// The fixed-point quotient of two entries, saturated.
fn fix_div(a: i64, b: i64) -> (r: i64)
    requires
        -ENTRY_BOUND <= a <= ENTRY_BOUND,
        b != 0,
    ensures
        r as int == fix_div_spec(a as int, b as int),
        -ENTRY_BOUND <= r <= ENTRY_BOUND,
{
    let num: i128 = (a as i128) * 1_000_000;
    if b > 0 {
        clamp_i128(div_i128(num, b as i128), ENTRY_BOUND)
    } else {
        clamp_i128(div_i128(-num, -(b as i128)), ENTRY_BOUND)
    }
}

/// The fixed-point identity matrix.
pub fn identity() -> (out: Matrix4)
    ensures
        out == identity_spec(),
        mat_bounded(out),
{
    proof {
        reveal(identity_spec);
    }
    Matrix4 {
        m00: 1_000_000,
        m01: 0,
        m02: 0,
        m03: 0,
        m10: 0,
        m11: 1_000_000,
        m12: 0,
        m13: 0,
        m20: 0,
        m21: 0,
        m22: 1_000_000,
        m23: 0,
        m30: 0,
        m31: 0,
        m32: 0,
        m33: 1_000_000,
    }
}

/// The fixed-point matrix product.
pub fn multiply44x44(a: &Matrix4, b: &Matrix4) -> (out: Matrix4)
    requires
        mat_bounded(*a),
        mat_bounded(*b),
    ensures
        out == mul44_spec(*a, *b),
        mat_bounded(out),
{
    proof {
        reveal(mul44_spec);
    }
    Matrix4 {
        m00: fix4(a.m00, b.m00, a.m01, b.m10, a.m02, b.m20, a.m03, b.m30),
        m01: fix4(a.m00, b.m01, a.m01, b.m11, a.m02, b.m21, a.m03, b.m31),
        m02: fix4(a.m00, b.m02, a.m01, b.m12, a.m02, b.m22, a.m03, b.m32),
        m03: fix4(a.m00, b.m03, a.m01, b.m13, a.m02, b.m23, a.m03, b.m33),
        m10: fix4(a.m10, b.m00, a.m11, b.m10, a.m12, b.m20, a.m13, b.m30),
        m11: fix4(a.m10, b.m01, a.m11, b.m11, a.m12, b.m21, a.m13, b.m31),
        m12: fix4(a.m10, b.m02, a.m11, b.m12, a.m12, b.m22, a.m13, b.m32),
        m13: fix4(a.m10, b.m03, a.m11, b.m13, a.m12, b.m23, a.m13, b.m33),
        m20: fix4(a.m20, b.m00, a.m21, b.m10, a.m22, b.m20, a.m23, b.m30),
        m21: fix4(a.m20, b.m01, a.m21, b.m11, a.m22, b.m21, a.m23, b.m31),
        m22: fix4(a.m20, b.m02, a.m21, b.m12, a.m22, b.m22, a.m23, b.m32),
        m23: fix4(a.m20, b.m03, a.m21, b.m13, a.m22, b.m23, a.m23, b.m33),
        m30: fix4(a.m30, b.m00, a.m31, b.m10, a.m32, b.m20, a.m33, b.m30),
        m31: fix4(a.m30, b.m01, a.m31, b.m11, a.m32, b.m21, a.m33, b.m31),
        m32: fix4(a.m30, b.m02, a.m31, b.m12, a.m32, b.m22, a.m33, b.m32),
        m33: fix4(a.m30, b.m03, a.m31, b.m13, a.m32, b.m23, a.m33, b.m33),
    }
}

/// The fixed-point matrix-vector product.
pub fn multiply44x41(a: &Matrix4, v: &Vector4) -> (out: Vector4)
    requires
        mat_bounded(*a),
        vec_bounded(*v),
    ensures
        out == mul41_spec(*a, *v),
        vec_bounded(out),
{
    proof {
        reveal(mul41_spec);
    }
    Vector4 {
        v0: fix4(a.m00, v.v0, a.m01, v.v1, a.m02, v.v2, a.m03, v.v3),
        v1: fix4(a.m10, v.v0, a.m11, v.v1, a.m12, v.v2, a.m13, v.v3),
        v2: fix4(a.m20, v.v0, a.m21, v.v1, a.m22, v.v2, a.m23, v.v3),
        v3: fix4(a.m30, v.v0, a.m31, v.v1, a.m32, v.v2, a.m33, v.v3),
    }
}

/// The saturating matrix sum.
pub fn add44(a: &Matrix4, b: &Matrix4) -> (out: Matrix4)
    ensures
        out == add44_spec(*a, *b),
        mat_bounded(out),
{
    proof {
        reveal(add44_spec);
    }
    Matrix4 {
        m00: sat_add(a.m00, b.m00),
        m01: sat_add(a.m01, b.m01),
        m02: sat_add(a.m02, b.m02),
        m03: sat_add(a.m03, b.m03),
        m10: sat_add(a.m10, b.m10),
        m11: sat_add(a.m11, b.m11),
        m12: sat_add(a.m12, b.m12),
        m13: sat_add(a.m13, b.m13),
        m20: sat_add(a.m20, b.m20),
        m21: sat_add(a.m21, b.m21),
        m22: sat_add(a.m22, b.m22),
        m23: sat_add(a.m23, b.m23),
        m30: sat_add(a.m30, b.m30),
        m31: sat_add(a.m31, b.m31),
        m32: sat_add(a.m32, b.m32),
        m33: sat_add(a.m33, b.m33),
    }
}

/// The saturating matrix difference.
pub fn subtract44(a: &Matrix4, b: &Matrix4) -> (out: Matrix4)
    ensures
        out == sub44_spec(*a, *b),
        mat_bounded(out),
{
    proof {
        reveal(sub44_spec);
    }
    Matrix4 {
        m00: sat_sub(a.m00, b.m00),
        m01: sat_sub(a.m01, b.m01),
        m02: sat_sub(a.m02, b.m02),
        m03: sat_sub(a.m03, b.m03),
        m10: sat_sub(a.m10, b.m10),
        m11: sat_sub(a.m11, b.m11),
        m12: sat_sub(a.m12, b.m12),
        m13: sat_sub(a.m13, b.m13),
        m20: sat_sub(a.m20, b.m20),
        m21: sat_sub(a.m21, b.m21),
        m22: sat_sub(a.m22, b.m22),
        m23: sat_sub(a.m23, b.m23),
        m30: sat_sub(a.m30, b.m30),
        m31: sat_sub(a.m31, b.m31),
        m32: sat_sub(a.m32, b.m32),
        m33: sat_sub(a.m33, b.m33),
    }
}

/// The saturating vector sum.
pub fn add41(a: &Vector4, b: &Vector4) -> (out: Vector4)
    ensures
        out == add41_spec(*a, *b),
        vec_bounded(out),
{
    proof {
        reveal(add41_spec);
    }
    Vector4 {
        v0: sat_add(a.v0, b.v0),
        v1: sat_add(a.v1, b.v1),
        v2: sat_add(a.v2, b.v2),
        v3: sat_add(a.v3, b.v3),
    }
}

/// The saturating vector difference.
pub fn subtract41(a: &Vector4, b: &Vector4) -> (out: Vector4)
    ensures
        out == sub41_spec(*a, *b),
        vec_bounded(out),
{
    proof {
        reveal(sub41_spec);
    }
    Vector4 {
        v0: sat_sub(a.v0, b.v0),
        v1: sat_sub(a.v1, b.v1),
        v2: sat_sub(a.v2, b.v2),
        v3: sat_sub(a.v3, b.v3),
    }
}

/// The transpose.
pub fn transpose(a: &Matrix4) -> (out: Matrix4)
    requires
        mat_bounded(*a),
    ensures
        out == transpose_spec(*a),
        mat_bounded(out),
{
    proof {
        reveal(transpose_spec);
    }
    Matrix4 {
        m00: a.m00,
        m01: a.m10,
        m02: a.m20,
        m03: a.m30,
        m10: a.m01,
        m11: a.m11,
        m12: a.m21,
        m13: a.m31,
        m20: a.m02,
        m21: a.m12,
        m22: a.m22,
        m23: a.m32,
        m30: a.m03,
        m31: a.m13,
        m32: a.m23,
        m33: a.m33,
    }
}

/// The singularity fallback: nudge exactly-zero diagonal entries.
fn perturb(a: &Matrix4) -> (out: Matrix4)
    requires
        mat_bounded(*a),
    ensures
        out == perturb_spec(*a),
        mat_bounded(out),
{
    proof {
        reveal(perturb_spec);
    }
    Matrix4 {
        m00: if a.m00 == 0 { 1_000_000 } else { a.m00 },
        m01: a.m01,
        m02: a.m02,
        m03: a.m03,
        m10: a.m10,
        m11: if a.m11 == 0 { 1_000_000 } else { a.m11 },
        m12: a.m12,
        m13: a.m13,
        m20: a.m20,
        m21: a.m21,
        m22: if a.m22 == 0 { 1_000_000 } else { a.m22 },
        m23: a.m23,
        m30: a.m30,
        m31: a.m31,
        m32: a.m32,
        m33: if a.m33 == 0 { 1_000_000 } else { a.m33 },
    }
}

/// The fixed-point determinant.
pub fn determinant(a: &Matrix4) -> (det: i64)
    requires
        mat_bounded(*a),
    ensures
        det as int == det_spec(*a),
        -ENTRY_BOUND <= det <= ENTRY_BOUND,
{
    proof {
        reveal(det_spec);
    }
    let s0 = sat_sub(fix_mul(a.m00, a.m11), fix_mul(a.m10, a.m01));
    let s1 = sat_sub(fix_mul(a.m00, a.m12), fix_mul(a.m10, a.m02));
    let s2 = sat_sub(fix_mul(a.m00, a.m13), fix_mul(a.m10, a.m03));
    let s3 = sat_sub(fix_mul(a.m01, a.m12), fix_mul(a.m11, a.m02));
    let s4 = sat_sub(fix_mul(a.m01, a.m13), fix_mul(a.m11, a.m03));
    let s5 = sat_sub(fix_mul(a.m02, a.m13), fix_mul(a.m12, a.m03));
    let c5 = sat_sub(fix_mul(a.m22, a.m33), fix_mul(a.m32, a.m23));
    let c4 = sat_sub(fix_mul(a.m21, a.m33), fix_mul(a.m31, a.m23));
    let c3 = sat_sub(fix_mul(a.m21, a.m32), fix_mul(a.m31, a.m22));
    let c2 = sat_sub(fix_mul(a.m20, a.m33), fix_mul(a.m30, a.m23));
    let c1 = sat_sub(fix_mul(a.m20, a.m32), fix_mul(a.m30, a.m22));
    let c0 = sat_sub(fix_mul(a.m20, a.m31), fix_mul(a.m30, a.m21));
    sat_add(
        sat_sub(
            sat_add(sat_add(sat_sub(fix_mul(s0, c5), fix_mul(s1, c4)), fix_mul(s2, c3)), fix_mul(s3, c2)),
            fix_mul(s4, c1),
        ),
        fix_mul(s5, c0),
    )
}

/// The closed-form adjugate inversion; reports failure on an exactly
/// singular matrix.
fn invert_exact(a: &Matrix4) -> (r: (Matrix4, bool))
    requires
        mat_bounded(*a),
    ensures
        r.1 == (det_spec(*a) != 0),
        r.1 ==> r.0 == inverse_spec(*a) && mat_bounded(r.0),
        !r.1 ==> r.0 == identity_spec(),
{
    proof {
        reveal(det_spec);
        reveal(inverse_spec);
        reveal(identity_spec);
    }
    let det = determinant(a);
    if det == 0 {
        return (identity(), false);
    }
    let s0 = sat_sub(fix_mul(a.m00, a.m11), fix_mul(a.m10, a.m01));
    let s1 = sat_sub(fix_mul(a.m00, a.m12), fix_mul(a.m10, a.m02));
    let s2 = sat_sub(fix_mul(a.m00, a.m13), fix_mul(a.m10, a.m03));
    let s3 = sat_sub(fix_mul(a.m01, a.m12), fix_mul(a.m11, a.m02));
    let s4 = sat_sub(fix_mul(a.m01, a.m13), fix_mul(a.m11, a.m03));
    let s5 = sat_sub(fix_mul(a.m02, a.m13), fix_mul(a.m12, a.m03));
    let c5 = sat_sub(fix_mul(a.m22, a.m33), fix_mul(a.m32, a.m23));
    let c4 = sat_sub(fix_mul(a.m21, a.m33), fix_mul(a.m31, a.m23));
    let c3 = sat_sub(fix_mul(a.m21, a.m32), fix_mul(a.m31, a.m22));
    let c2 = sat_sub(fix_mul(a.m20, a.m33), fix_mul(a.m30, a.m23));
    let c1 = sat_sub(fix_mul(a.m20, a.m32), fix_mul(a.m30, a.m22));
    let c0 = sat_sub(fix_mul(a.m20, a.m31), fix_mul(a.m30, a.m21));
    let invdet = fix_div(1_000_000, det);
    let out = Matrix4 {
        m00: fix_mul(sat_add(sat_sub(fix_mul(a.m11, c5), fix_mul(a.m12, c4)), fix_mul(a.m13, c3)), invdet),
        m01: fix_mul(sat_sub(sat_sub(fix_mul(a.m02, c4), fix_mul(a.m01, c5)), fix_mul(a.m03, c3)), invdet),
        m02: fix_mul(sat_add(sat_sub(fix_mul(a.m31, s5), fix_mul(a.m32, s4)), fix_mul(a.m33, s3)), invdet),
        m03: fix_mul(sat_sub(sat_sub(fix_mul(a.m22, s4), fix_mul(a.m21, s5)), fix_mul(a.m23, s3)), invdet),
        m10: fix_mul(sat_sub(sat_sub(fix_mul(a.m12, c2), fix_mul(a.m10, c5)), fix_mul(a.m13, c1)), invdet),
        m11: fix_mul(sat_add(sat_sub(fix_mul(a.m00, c5), fix_mul(a.m02, c2)), fix_mul(a.m03, c1)), invdet),
        m12: fix_mul(sat_sub(sat_sub(fix_mul(a.m32, s2), fix_mul(a.m30, s5)), fix_mul(a.m33, s1)), invdet),
        m13: fix_mul(sat_add(sat_sub(fix_mul(a.m20, s5), fix_mul(a.m22, s2)), fix_mul(a.m23, s1)), invdet),
        m20: fix_mul(sat_add(sat_sub(fix_mul(a.m10, c4), fix_mul(a.m11, c2)), fix_mul(a.m13, c0)), invdet),
        m21: fix_mul(sat_sub(sat_sub(fix_mul(a.m01, c2), fix_mul(a.m00, c4)), fix_mul(a.m03, c0)), invdet),
        m22: fix_mul(sat_add(sat_sub(fix_mul(a.m30, s4), fix_mul(a.m31, s2)), fix_mul(a.m33, s0)), invdet),
        m23: fix_mul(sat_sub(sat_sub(fix_mul(a.m21, s2), fix_mul(a.m20, s4)), fix_mul(a.m23, s0)), invdet),
        m30: fix_mul(sat_sub(sat_sub(fix_mul(a.m11, c1), fix_mul(a.m10, c3)), fix_mul(a.m12, c0)), invdet),
        m31: fix_mul(sat_add(sat_sub(fix_mul(a.m00, c3), fix_mul(a.m01, c1)), fix_mul(a.m02, c0)), invdet),
        m32: fix_mul(sat_sub(sat_sub(fix_mul(a.m31, s1), fix_mul(a.m30, s3)), fix_mul(a.m32, s0)), invdet),
        m33: fix_mul(sat_add(sat_sub(fix_mul(a.m20, s3), fix_mul(a.m21, s1)), fix_mul(a.m22, s0)), invdet),
    };
    (out, true)
}

/// Inversion with the singularity fallback: an exactly singular matrix
/// has its zero diagonal entries nudged before one more attempt; only a
/// matrix that stays singular is reported as such.
pub fn invert(a: &Matrix4) -> (r: (Matrix4, bool))
    requires
        mat_bounded(*a),
    ensures
        ({
            let effective = if det_spec(*a) != 0 {
                *a
            } else {
                perturb_spec(*a)
            };
            &&& r.1 == (det_spec(effective) != 0)
            &&& (r.1 ==> r.0 == inverse_spec(effective) && mat_bounded(r.0))
            &&& (!r.1 ==> r.0 == identity_spec())
        }),
{
    let first = invert_exact(a);
    if first.1 {
        return first;
    }
    let fudged = perturb(a);
    invert_exact(&fudged)
}

/// The compass observation matrix: the compass observes the heading
/// component only.
pub open spec fn compass_observer_spec() -> Matrix4 {
    Matrix4 {
        m00: 0, m01: 0, m02: 0, m03: 0,
        m10: 0, m11: 0, m12: 0, m13: 0,
        m20: 0, m21: 0, m22: 1_000_000, m23: 0,
        m30: 0, m31: 0, m32: 0, m33: 0,
    }
}

/// The dead-reckoning observation matrix: it observes the speed component
/// only.
pub open spec fn dead_reckoning_observer_spec() -> Matrix4 {
    Matrix4 {
        m00: 0, m01: 0, m02: 0, m03: 0,
        m10: 0, m11: 0, m12: 0, m13: 0,
        m20: 0, m21: 0, m22: 0, m23: 0,
        m30: 0, m31: 0, m32: 0, m33: 1_000_000,
    }
}

/// The GPS measurement noise: the position rows are filled in per fix
/// from the reported accuracy; the heading and speed entries are fixed
/// estimates.
pub open spec fn gps_measurement_noise_spec() -> Matrix4 {
    Matrix4 {
        m00: 0, m01: 0, m02: 0, m03: 0,
        m10: 0, m11: 0, m12: 0, m13: 0,
        m20: 0, m21: 0, m22: 5_000_000, m23: 0,
        m30: 0, m31: 0, m32: 0, m33: 1_000_000,
    }
}

/// The compass measurement noise: kept high because of the magnetic
/// interference seen in the field.
pub open spec fn compass_measurement_noise_spec() -> Matrix4 {
    Matrix4 {
        m00: 0, m01: 0, m02: 0, m03: 0,
        m10: 0, m11: 0, m12: 0, m13: 0,
        m20: 0, m21: 0, m22: 45_000_000, m23: 0,
        m30: 0, m31: 0, m32: 0, m33: 0,
    }
}

/// The dead-reckoning measurement noise: its speed entry must stay above
/// the GPS one, so that the filter trusts GPS speed more.
pub open spec fn dead_reckoning_measurement_noise_spec() -> Matrix4 {
    Matrix4 {
        m00: 0, m01: 0, m02: 0, m03: 0,
        m10: 0, m11: 0, m12: 0, m13: 0,
        m20: 0, m21: 0, m22: 0, m23: 0,
        m30: 0, m31: 0, m32: 0, m33: 3_000_000,
    }
}

/// The dead-reckoning transition matrix for one prediction step: position
/// advances by the elapsed time rotated into the heading, scaled by the
/// speed component; heading and speed carry forward unchanged.
pub open spec fn transition_spec(estimates: Vector4, time_diff_s: i64) -> Matrix4 {
    let displacement = Point { x: 0, y: time_diff_s };
    Matrix4 {
        m00: 1_000_000, m01: 0, m02: 0, m03: rotate_x_spec(displacement, estimates.v2 as int) as i64,
        m10: 0, m11: 1_000_000, m12: 0, m13: rotate_y_spec(displacement, estimates.v2 as int) as i64,
        m20: 0, m21: 0, m22: 1_000_000, m23: 0,
        m30: 0, m31: 0, m32: 0, m33: 1_000_000,
    }
}

/// A heading residual folded into the half-open half turn
/// `(-180, 180]`, so that a 359-versus-1 degree innovation does not pull
/// the estimate a whole turn around.
pub open spec fn centered_wrap_spec(degrees: int) -> int {
    if wrap_spec(degrees) > HALF_TURN as int {
        wrap_spec(degrees) - FULL_TURN as int
    } else {
        wrap_spec(degrees)
    }
}

/// One whole predict-and-correct cycle as a function of the filter state
/// and the observation: the new estimate vector, the new covariance, and
/// whether the innovation covariance was invertible (after the diagonal
/// nudge, if it took one).
pub open spec fn update_result_spec(
    estimates: Vector4,
    covariance: Matrix4,
    process_noise: Matrix4,
    measurements: Vector4,
    observer_matrix: Matrix4,
    measurement_noise: Matrix4,
    time_diff_s: i64,
) -> (Vector4, Matrix4, bool) {
    let transition = transition_spec(estimates, time_diff_s);
    let predicted = mul41_spec(transition, estimates);
    let predicted_covariance = add44_spec(
        mul44_spec(mul44_spec(transition, covariance), transpose_spec(transition)),
        process_noise,
    );
    let innovation_covariance = add44_spec(
        mul44_spec(mul44_spec(observer_matrix, predicted_covariance), transpose_spec(observer_matrix)),
        measurement_noise,
    );
    let effective = if det_spec(innovation_covariance) != 0 {
        innovation_covariance
    } else {
        perturb_spec(innovation_covariance)
    };
    if det_spec(effective) == 0 {
        (predicted, predicted_covariance, false)
    } else {
        let gain = mul44_spec(
            mul44_spec(predicted_covariance, transpose_spec(observer_matrix)),
            inverse_spec(effective),
        );
        let residual = sub41_spec(measurements, mul41_spec(observer_matrix, predicted));
        let innovation = Vector4 { v2: centered_wrap_spec(residual.v2 as int) as i64, ..residual };
        let corrected = add41_spec(predicted, mul41_spec(gain, innovation));
        (
            Vector4 { v2: wrap_spec(corrected.v2 as int) as i64, ..corrected },
            mul44_spec(
                sub44_spec(identity_spec(), mul44_spec(gain, observer_matrix)),
                predicted_covariance,
            ),
            true,
        )
    }
}


/// Unfolds one successful update cycle: given each intermediate product,
/// the pipeline's result is the corrected estimate and covariance.
#[verifier::spinoff_prover]
proof fn lemma_update_ok(
    estimates: Vector4,
    covariance: Matrix4,
    process_noise: Matrix4,
    measurements: Vector4,
    observer_matrix: Matrix4,
    measurement_noise: Matrix4,
    time_diff_s: i64,
    final_estimates: Vector4,
    final_covariance: Matrix4,
)
    requires
        ({
            let transition = transition_spec(estimates, time_diff_s);
            let predicted = mul41_spec(transition, estimates);
            let predicted_covariance = add44_spec(
                mul44_spec(mul44_spec(transition, covariance), transpose_spec(transition)),
                process_noise,
            );
            let innovation_covariance = add44_spec(
                mul44_spec(
                    mul44_spec(observer_matrix, predicted_covariance),
                    transpose_spec(observer_matrix),
                ),
                measurement_noise,
            );
            let effective = if det_spec(innovation_covariance) != 0 {
                innovation_covariance
            } else {
                perturb_spec(innovation_covariance)
            };
            let gain = mul44_spec(
                mul44_spec(predicted_covariance, transpose_spec(observer_matrix)),
                inverse_spec(effective),
            );
            let residual = sub41_spec(measurements, mul41_spec(observer_matrix, predicted));
            let innovation = Vector4 {
                v2: centered_wrap_spec(residual.v2 as int) as i64,
                ..residual
            };
            let corrected = add41_spec(predicted, mul41_spec(gain, innovation));
            &&& det_spec(effective) != 0
            &&& final_estimates == (Vector4 { v2: wrap_spec(corrected.v2 as int) as i64, ..corrected })
            &&& final_covariance == mul44_spec(
                sub44_spec(identity_spec(), mul44_spec(gain, observer_matrix)),
                predicted_covariance,
            )
        }),
    ensures
        update_result_spec(
            estimates,
            covariance,
            process_noise,
            measurements,
            observer_matrix,
            measurement_noise,
            time_diff_s,
        ) == (final_estimates, final_covariance, true),
{
}

/// Unfolds one update cycle that found the innovation covariance singular
/// even after the diagonal nudge: the pipeline leaves the prediction.
#[verifier::spinoff_prover]
proof fn lemma_update_singular(
    estimates: Vector4,
    covariance: Matrix4,
    process_noise: Matrix4,
    measurements: Vector4,
    observer_matrix: Matrix4,
    measurement_noise: Matrix4,
    time_diff_s: i64,
)
    requires
        ({
            let transition = transition_spec(estimates, time_diff_s);
            let predicted_covariance = add44_spec(
                mul44_spec(mul44_spec(transition, covariance), transpose_spec(transition)),
                process_noise,
            );
            let innovation_covariance = add44_spec(
                mul44_spec(
                    mul44_spec(observer_matrix, predicted_covariance),
                    transpose_spec(observer_matrix),
                ),
                measurement_noise,
            );
            let effective = if det_spec(innovation_covariance) != 0 {
                innovation_covariance
            } else {
                perturb_spec(innovation_covariance)
            };
            det_spec(effective) == 0
        }),
    ensures
        ({
            let transition = transition_spec(estimates, time_diff_s);
            update_result_spec(
                estimates,
                covariance,
                process_noise,
                measurements,
                observer_matrix,
                measurement_noise,
                time_diff_s,
            ) == (
                mul41_spec(transition, estimates),
                add44_spec(
                    mul44_spec(mul44_spec(transition, covariance), transpose_spec(transition)),
                    process_noise,
                ),
                false,
            )
        }),
{
}

/// The four-state Kalman filter over x, y, heading and speed.
pub struct LocationFilter {
    pub gps_observer_matrix: Matrix4,
    pub compass_observer_matrix: Matrix4,
    pub dead_reckoning_observer_matrix: Matrix4,
    pub gps_measurement_noise: Matrix4,
    pub compass_measurement_noise: Matrix4,
    pub dead_reckoning_measurement_noise: Matrix4,
    pub estimates: Vector4,
    pub covariance: Matrix4,
    pub process_noise: Matrix4,
}

impl LocationFilter {
    /// The filter's invariant: every matrix and the estimate stay within
    /// the saturation bound, and the heading estimate stays folded into
    /// `[0, 360)` degrees.
    pub open spec fn wf(&self) -> bool {
        &&& mat_bounded(self.gps_observer_matrix)
        &&& mat_bounded(self.compass_observer_matrix)
        &&& mat_bounded(self.dead_reckoning_observer_matrix)
        &&& mat_bounded(self.gps_measurement_noise)
        &&& mat_bounded(self.compass_measurement_noise)
        &&& mat_bounded(self.dead_reckoning_measurement_noise)
        &&& mat_bounded(self.covariance)
        &&& mat_bounded(self.process_noise)
        &&& vec_bounded(self.estimates)
        &&& 0 <= self.estimates.v2 < FULL_TURN
    }

    /// A filter seeded with a position and heading, zero speed, and
    /// identity covariance and process noise (a documented simplification:
    /// the true initial uncertainty is unknown).  The dead-reckoning speed
    /// noise provably exceeds the GPS speed noise.
    pub fn new(x_m: Meter, y_m: Meter, heading_d: Degrees) -> (filter: LocationFilter)
        requires
            -ENTRY_BOUND <= x_m <= ENTRY_BOUND,
            -ENTRY_BOUND <= y_m <= ENTRY_BOUND,
            0 <= heading_d < FULL_TURN,
        ensures
            filter.wf(),
            filter.estimates == (Vector4 { v0: x_m, v1: y_m, v2: heading_d, v3: 0 }),
            filter.covariance == identity_spec(),
            filter.process_noise == identity_spec(),
            filter.gps_observer_matrix == identity_spec(),
            filter.compass_observer_matrix == compass_observer_spec(),
            filter.dead_reckoning_observer_matrix == dead_reckoning_observer_spec(),
            filter.gps_measurement_noise == gps_measurement_noise_spec(),
            filter.compass_measurement_noise == compass_measurement_noise_spec(),
            filter.dead_reckoning_measurement_noise == dead_reckoning_measurement_noise_spec(),
            filter.dead_reckoning_measurement_noise.m33 > filter.gps_measurement_noise.m33,
    {
        proof {
            reveal(identity_spec);
        }
        LocationFilter {
            gps_observer_matrix: identity(),
            compass_observer_matrix: Matrix4 {
                m00: 0, m01: 0, m02: 0, m03: 0,
                m10: 0, m11: 0, m12: 0, m13: 0,
                m20: 0, m21: 0, m22: 1_000_000, m23: 0,
                m30: 0, m31: 0, m32: 0, m33: 0,
            },
            dead_reckoning_observer_matrix: Matrix4 {
                m00: 0, m01: 0, m02: 0, m03: 0,
                m10: 0, m11: 0, m12: 0, m13: 0,
                m20: 0, m21: 0, m22: 0, m23: 0,
                m30: 0, m31: 0, m32: 0, m33: 1_000_000,
            },
            gps_measurement_noise: Matrix4 {
                m00: 0, m01: 0, m02: 0, m03: 0,
                m10: 0, m11: 0, m12: 0, m13: 0,
                m20: 0, m21: 0, m22: 5_000_000, m23: 0,
                m30: 0, m31: 0, m32: 0, m33: 1_000_000,
            },
            compass_measurement_noise: Matrix4 {
                m00: 0, m01: 0, m02: 0, m03: 0,
                m10: 0, m11: 0, m12: 0, m13: 0,
                m20: 0, m21: 0, m22: 45_000_000, m23: 0,
                m30: 0, m31: 0, m32: 0, m33: 0,
            },
            dead_reckoning_measurement_noise: Matrix4 {
                m00: 0, m01: 0, m02: 0, m03: 0,
                m10: 0, m11: 0, m12: 0, m13: 0,
                m20: 0, m21: 0, m22: 0, m23: 0,
                m30: 0, m31: 0, m32: 0, m33: 3_000_000,
            },
            estimates: Vector4 { v0: x_m, v1: y_m, v2: heading_d, v3: 0 },
            covariance: identity(),
            process_noise: identity(),
        }
    }

    /// Runs one predict-and-correct Kalman cycle using the provided
    /// measurements.  Returns false, leaving the prediction in place,
    /// only when the innovation covariance is singular even after the
    /// diagonal nudge — a modeling bug the caller must surface loudly.
    #[verifier::rlimit(100)]
    #[verifier::spinoff_prover]
    pub fn update(
        &mut self,
        measurements: &Vector4,
        observer_matrix: &Matrix4,
        measurement_noise: &Matrix4,
        time_diff_s: i64,
    ) -> (ok: bool)
        requires
            old(self).wf(),
            mat_bounded(*observer_matrix),
            mat_bounded(*measurement_noise),
            vec_bounded(*measurements),
            0 <= time_diff_s <= 3_600_000_000,
        ensures
            final (self).wf(),
            final (self).gps_observer_matrix == old(self).gps_observer_matrix,
            final (self).compass_observer_matrix == old(self).compass_observer_matrix,
            final (self).dead_reckoning_observer_matrix == old(self).dead_reckoning_observer_matrix,
            final (self).gps_measurement_noise == old(self).gps_measurement_noise,
            final (self).compass_measurement_noise == old(self).compass_measurement_noise,
            final (self).dead_reckoning_measurement_noise == old(
                self,
            ).dead_reckoning_measurement_noise,
            final (self).process_noise == old(self).process_noise,
            ({
                let result = update_result_spec(
                    old(self).estimates,
                    old(self).covariance,
                    old(self).process_noise,
                    *measurements,
                    *observer_matrix,
                    *measurement_noise,
                    time_diff_s,
                );
                &&& final (self).estimates == result.0
                &&& final (self).covariance == result.1
                &&& ok == result.2
            }),
    {
        let ghost result = update_result_spec(
            old(self).estimates,
            old(self).covariance,
            old(self).process_noise,
            *measurements,
            *observer_matrix,
            *measurement_noise,
            time_diff_s,
        );

        // Prediction: x' = A x, P' = A P A^t + Q, with the dead-reckoning
        // motion model in A.
        let heading_d = self.estimates.v2;
        let delta = rotate_degrees_clockwise(&Point { x: 0, y: time_diff_s }, heading_d);
        let transition = Matrix4 {
            m00: 1_000_000, m01: 0, m02: 0, m03: delta.x,
            m10: 0, m11: 1_000_000, m12: 0, m13: delta.y,
            m20: 0, m21: 0, m22: 1_000_000, m23: 0,
            m30: 0, m31: 0, m32: 0, m33: 1_000_000,
        };
        proof {
            assert(transition == transition_spec(old(self).estimates, time_diff_s));
        }
        self.estimates = multiply44x41(&transition, &self.estimates);
        proof {
            assert(self.estimates == mul41_spec(
                transition_spec(old(self).estimates, time_diff_s),
                old(self).estimates,
            ));
        }
        self.covariance = add44(
            &multiply44x44(&multiply44x44(&transition, &self.covariance), &transpose(&transition)),
            &self.process_noise,
        );
        proof {
            assert(self.covariance == add44_spec(
                mul44_spec(
                    mul44_spec(
                        transition_spec(old(self).estimates, time_diff_s),
                        old(self).covariance,
                    ),
                    transpose_spec(transition_spec(old(self).estimates, time_diff_s)),
                ),
                old(self).process_noise,
            ));
        }

        // The Kalman gain: K = P' H^t inv(H P' H^t + R).
        let ghost predicted_covariance = self.covariance;
        let observer_transpose = transpose(observer_matrix);
        let innovation_covariance = add44(
            &multiply44x44(&multiply44x44(observer_matrix, &self.covariance), &observer_transpose),
            measurement_noise,
        );
        proof {
            assert(innovation_covariance == add44_spec(
                mul44_spec(
                    mul44_spec(*observer_matrix, predicted_covariance),
                    transpose_spec(*observer_matrix),
                ),
                *measurement_noise,
            ));
        }
        let inversion = invert(&innovation_covariance);
        proof {
            let effective = if det_spec(innovation_covariance) != 0 {
                innovation_covariance
            } else {
                perturb_spec(innovation_covariance)
            };
            assert(inversion.1 == (det_spec(effective) != 0));
            assert(inversion.1 ==> inversion.0 == inverse_spec(effective));
        }
        if !inversion.1 {
            proof {
                reveal(mul41_spec);
                lemma_fixed_identity(old(self).estimates.v2 as int);
                lemma_update_singular(
                    old(self).estimates,
                    old(self).covariance,
                    old(self).process_noise,
                    *measurements,
                    *observer_matrix,
                    *measurement_noise,
                    time_diff_s,
                );
            }
            return false;
        }
        let gain = multiply44x44(
            &multiply44x44(&self.covariance, &observer_transpose),
            &inversion.0,
        );
        proof {
            let effective = if det_spec(innovation_covariance) != 0 {
                innovation_covariance
            } else {
                perturb_spec(innovation_covariance)
            };
            assert(gain == mul44_spec(
                mul44_spec(predicted_covariance, transpose_spec(*observer_matrix)),
                inverse_spec(effective),
            ));
        }

        // The innovation z - H x', with its heading component folded into
        // the half-open half turn around zero.
        let predicted_measurements = multiply44x41(observer_matrix, &self.estimates);
        let mut innovation = subtract41(measurements, &predicted_measurements);
        let folded = wrap_degrees(innovation.v2);
        let ghost residual = innovation;
        innovation.v2 = if folded > HALF_TURN {
            folded - FULL_TURN
        } else {
            folded
        };
        proof {
            assert(residual == sub41_spec(
                *measurements,
                mul41_spec(*observer_matrix, mul41_spec(
                    transition_spec(old(self).estimates, time_diff_s),
                    old(self).estimates,
                )),
            ));
            assert(innovation == (Vector4 {
                v2: centered_wrap_spec(residual.v2 as int) as i64,
                ..residual
            }));
        }

        // The correction: x'' = x' + K innovation, heading folded back
        // into [0, 360); P'' = (I - K H) P'.
        let corrected = add41(&self.estimates, &multiply44x41(&gain, &innovation));
        self.estimates = corrected;
        self.estimates.v2 = wrap_degrees(corrected.v2);
        self.covariance = multiply44x44(
            &subtract44(&identity(), &multiply44x44(&gain, observer_matrix)),
            &self.covariance,
        );
        proof {
            lemma_update_ok(
                old(self).estimates,
                old(self).covariance,
                old(self).process_noise,
                *measurements,
                *observer_matrix,
                *measurement_noise,
                time_diff_s,
                self.estimates,
                self.covariance,
            );
        }
        true
    }

    /// The estimated position, in millionths of a meter.
    pub fn estimated_location_m(&self) -> (location: (Meter, Meter))
        ensures
            location.0 == self.estimates.v0,
            location.1 == self.estimates.v1,
    {
        (self.estimates.v0, self.estimates.v1)
    }

    /// The estimated heading, in millionths of a degree, in `[0, 360)`.
    pub fn estimated_heading_d(&self) -> (heading: Degrees)
        requires
            self.wf(),
        ensures
            heading == self.estimates.v2,
            0 <= heading < FULL_TURN,
    {
        self.estimates.v2
    }

    /// The estimated speed, in millionths of a meter per second.
    pub fn estimated_speed_m_s(&self) -> (speed: MetersPerSecond)
        ensures
            speed == self.estimates.v3,
    {
        self.estimates.v3
    }
}

/// Scaling a fixed-point value by the fixed-point one and rescaling gives
/// it back: the prediction step carries the heading forward unchanged.
proof fn lemma_fixed_identity(h: int)
    requires
        -ENTRY_BOUND <= h <= ENTRY_BOUND,
    ensures
        fix4_spec(0, 0, 0, 0, 1_000_000, h, 0, 0) == h,
{
    assert(1_000_000 * h == h * 1_000_000) by (nonlinear_arith);
    vstd::arithmetic::div_mod::lemma_div_multiples_vanish(h, 1_000_000);
    if h >= 0 {
        assert(tdiv(1_000_000 * h, 1_000_000) == h);
    } else {
        assert(-(1_000_000 * h) == (-h) * 1_000_000) by (nonlinear_arith);
        vstd::arithmetic::div_mod::lemma_div_multiples_vanish(-h, 1_000_000);
    }
}

} // verus!
