//! Geometry and heading arithmetic for the control loop.
//!
//! Headings are millionths of a degree, positions millionths of a meter,
//! in a local planar frame whose `+y` axis points north and whose bearings
//! grow clockwise from north.

use vstd::prelude::*;
use crate::math::{abs_spec, isqrt_spec, tdiv, div_i128, isqrt_u128};
use crate::math::{lemma_isqrt_bounds, lemma_mul_abs_bound, lemma_tdiv_bound};
use crate::trig::{atan45_spec, cosine_spec, sine_spec, atan_d, cosine_d, sine_d};
use crate::telemetry_message::{CompassMessage, GpsMessage, TelemetryMessage};

verus! {

/// Millionths of a meter.
pub type Meter = i64;

/// Millionths of a degree.
pub type Degrees = i64;

/// Millionths of a meter per second.
pub type MetersPerSecond = i64;

/// One full turn, in millionths of a degree.
pub const FULL_TURN: i64 = 360_000_000;

/// Half a turn, in millionths of a degree.
pub const HALF_TURN: i64 = 180_000_000;

/// A quarter turn, in millionths of a degree.
pub const QUARTER_TURN: i64 = 90_000_000;

/// A point in the local planar frame, in millionths of a meter.
#[derive(Clone, Copy, Debug, PartialEq, Eq, Structural)]
pub struct Point {
    pub x: Meter,
    pub y: Meter,
}

/// The estimated vehicle state that the control loop consumes.
#[derive(Clone, Copy, Debug, PartialEq, Eq, Structural)]
pub struct TelemetryState {
    pub location: Point,
    pub heading: Degrees,
    pub speed: MetersPerSecond,
    pub stopped: bool,
}

/// A heading folded into `[0, 360)` degrees (Euclidean remainder).
pub open spec fn wrap_spec(degrees: int) -> int {
    degrees % (FULL_TURN as int)
}

/// Folds any heading into `[0, 360)` degrees.
pub fn wrap_degrees(degrees: Degrees) -> (r: Degrees)
    ensures
        r == wrap_spec(degrees as int),
        0 <= r < FULL_TURN,
{
    proof {
        vstd::arithmetic::div_mod::lemma_mod_division_less_than_divisor(
            degrees as int,
            FULL_TURN as int,
        );
    }
    if degrees >= 0 {
        let r: u64 = (degrees as u64) % 360_000_000u64;
        r as i64
    } else {
        let p: u64 = ((-(degrees + 1)) as u64) % 360_000_000u64;
        proof {
            let d = degrees as int;
            let m = FULL_TURN as int;
            vstd::arithmetic::div_mod::lemma_fundamental_div_mod(-d - 1, m);
            vstd::arithmetic::div_mod::lemma_mod_division_less_than_divisor(-d - 1, m);
            let q = (-d - 1) / m;
            vstd::arithmetic::div_mod::lemma_fundamental_div_mod_converse_mod(
                d,
                m,
                -q - 1,
                m - 1 - (p as int),
            );
        }
        359_999_999i64 - (p as i64)
    }
}

/// Folding is idempotent: a value already in `[0, 360)` folds to itself.
pub proof fn lemma_wrap_degrees_idempotent(degrees: int)
    ensures
        wrap_spec(wrap_spec(degrees)) == wrap_spec(degrees),
{
    vstd::arithmetic::div_mod::lemma_mod_division_less_than_divisor(degrees, FULL_TURN as int);
    vstd::arithmetic::div_mod::lemma_small_mod(wrap_spec(degrees) as nat, FULL_TURN as nat);
}

/// The smallest absolute angular distance between two headings, in
/// `[0, 180]` degrees.
pub open spec fn difference_spec(heading_1: int, heading_2: int) -> int {
    let w1 = wrap_spec(heading_1);
    let w2 = wrap_spec(heading_2);
    let d = if w1 >= w2 {
        w1 - w2
    } else {
        w2 - w1
    };
    if d > HALF_TURN as int {
        FULL_TURN as int - d
    } else {
        d
    }
}

/// Calculates the absolute difference in degrees between two headings.
pub fn difference_d(heading_1: Degrees, heading_2: Degrees) -> (r: Degrees)
    ensures
        r == difference_spec(heading_1 as int, heading_2 as int),
        0 <= r <= HALF_TURN,
{
    let wrap_1_d = wrap_degrees(heading_1);
    let wrap_2_d = wrap_degrees(heading_2);
    let diff_d: i64 = if wrap_1_d >= wrap_2_d {
        wrap_1_d - wrap_2_d
    } else {
        wrap_2_d - wrap_1_d
    };
    if diff_d > HALF_TURN {
        FULL_TURN - diff_d
    } else {
        diff_d
    }
}

/// The angular distance between two headings does not depend on their order.
pub proof fn lemma_difference_symmetric(heading_1: int, heading_2: int)
    ensures
        difference_spec(heading_1, heading_2) == difference_spec(heading_2, heading_1),
{
}

/// Whether the shortest turn from `heading` to `goal_heading` is to the
/// left: true exactly when the goal lies strictly within the half turn
/// counterclockwise of the heading.  This is the sign of the cross product
/// of the two headings' unit vectors under the clockwise-from-north
/// convention.
pub open spec fn turn_left_spec(heading: int, goal_heading: int) -> bool {
    let t = wrap_spec(heading - goal_heading);
    0 < t < HALF_TURN as int
}

/// Determines if the vehicle facing `heading_d` needs to turn left to reach
/// `goal_heading_d`.
pub fn is_turn_left(heading_d: Degrees, goal_heading_d: Degrees) -> (r: bool)
    ensures
        r == turn_left_spec(heading_d as int, goal_heading_d as int),
{
    let wrap_heading = wrap_degrees(heading_d);
    let wrap_goal = wrap_degrees(goal_heading_d);
    let t = wrap_degrees(wrap_heading - wrap_goal);
    proof {
        vstd::arithmetic::div_mod::lemma_sub_mod_noop(
            heading_d as int,
            goal_heading_d as int,
            FULL_TURN as int,
        );
        vstd::arithmetic::div_mod::lemma_mod_division_less_than_divisor(
            (heading_d as int) - (goal_heading_d as int),
            FULL_TURN as int,
        );
        vstd::arithmetic::div_mod::lemma_small_mod(
            wrap_spec((wrap_heading as int) - (wrap_goal as int)) as nat,
            FULL_TURN as nat,
        );
    }
    0 < t && t < HALF_TURN
}

/// No turn is needed between a heading and itself.
pub proof fn lemma_turn_left_irreflexive(heading: int)
    ensures
        !turn_left_spec(heading, heading),
{
    vstd::arithmetic::div_mod::lemma_small_mod(0nat, FULL_TURN as nat);
}

/// The largest coordinate magnitude the geometry accepts, chosen so that
/// squares of coordinate differences stay within 128 bits and distances
/// within 64.
pub const MAX_COORDINATE: i64 = 3_000_000_000_000_000_000;

/// The `x` coordinate of a point rotated clockwise around the origin.
pub open spec fn rotate_x_spec(point: Point, degrees: int) -> int {
    tdiv(cosine_spec(degrees) * point.x + sine_spec(degrees) * point.y, 1_000_000)
}

/// The `y` coordinate of a point rotated clockwise around the origin.
pub open spec fn rotate_y_spec(point: Point, degrees: int) -> int {
    tdiv(-sine_spec(degrees) * point.x + cosine_spec(degrees) * point.y, 1_000_000)
}

/// Rotates a point a number of degrees clockwise around the origin.
pub fn rotate_degrees_clockwise(point: &Point, degrees: Degrees) -> (r: Point)
    requires
        abs_spec(point.x as int) <= MAX_COORDINATE,
        abs_spec(point.y as int) <= MAX_COORDINATE,
    ensures
        r.x == rotate_x_spec(*point, degrees as int),
        r.y == rotate_y_spec(*point, degrees as int),
        abs_spec(r.x as int) <= abs_spec(point.x as int) + abs_spec(point.y as int),
        abs_spec(r.y as int) <= abs_spec(point.x as int) + abs_spec(point.y as int),
{
    let sine = sine_d(degrees);
    let cosine = cosine_d(degrees);
    let ax: Ghost<int> = Ghost(abs_spec(point.x as int));
    let ay: Ghost<int> = Ghost(abs_spec(point.y as int));
    proof {
        lemma_mul_abs_bound(cosine as int, 1_000_000, point.x as int, ax@);
        lemma_mul_abs_bound(sine as int, 1_000_000, point.y as int, ay@);
        lemma_mul_abs_bound(sine as int, 1_000_000, point.x as int, ax@);
        lemma_mul_abs_bound(-(sine as int), 1_000_000, point.x as int, ax@);
        lemma_mul_abs_bound(cosine as int, 1_000_000, point.y as int, ay@);
        vstd::arithmetic::mul::lemma_mul_is_distributive_add(1_000_000, ax@, ay@);
    }
    let neg_sine: i64 = -sine;
    let xs: i128 = (cosine as i128) * (point.x as i128) + (sine as i128) * (point.y as i128);
    let ys: i128 = (neg_sine as i128) * (point.x as i128) + (cosine as i128) * (point.y as i128);
    proof {
        lemma_tdiv_bound(xs as int, 1_000_000, ax@ + ay@);
        lemma_tdiv_bound(ys as int, 1_000_000, ax@ + ay@);
    }
    let x = div_i128(xs, 1_000_000);
    let y = div_i128(ys, 1_000_000);
    Point { x: x as i64, y: y as i64 }
}

/// The squared Euclidean distance between two points.
pub open spec fn distance_squared_spec(point_1: Point, point_2: Point) -> int {
    (point_1.x - point_2.x) * (point_1.x - point_2.x) + (point_1.y - point_2.y) * (point_1.y
        - point_2.y)
}

/// The Euclidean distance between two points, rounded down.
pub open spec fn distance_spec(point_1: Point, point_2: Point) -> int {
    isqrt_spec(distance_squared_spec(point_1, point_2) as nat) as int
}

/// Distance between 2 points.
pub fn distance(point_1: &Point, point_2: &Point) -> (d: Meter)
    requires
        abs_spec(point_1.x as int) <= MAX_COORDINATE,
        abs_spec(point_1.y as int) <= MAX_COORDINATE,
        abs_spec(point_2.x as int) <= MAX_COORDINATE,
        abs_spec(point_2.y as int) <= MAX_COORDINATE,
    ensures
        d == distance_spec(*point_1, *point_2),
        d >= 0,
        (d == 0) <==> (*point_1 == *point_2),
{
    let dx: i128 = (point_1.x as i128) - (point_2.x as i128);
    let dy: i128 = (point_1.y as i128) - (point_2.y as i128);
    proof {
        lemma_mul_abs_bound(dx as int, 6_000_000_000_000_000_000, dx as int,
            6_000_000_000_000_000_000);
        lemma_mul_abs_bound(dy as int, 6_000_000_000_000_000_000, dy as int,
            6_000_000_000_000_000_000);
        assert(dx as int * dx as int >= 0) by (nonlinear_arith);
        assert(dy as int * dy as int >= 0) by (nonlinear_arith);
    }
    let n: u128 = (dx * dx + dy * dy) as u128;
    let r: u64 = isqrt_u128(n);
    proof {
        assert(r <= 8_500_000_000_000_000_000u64) by (nonlinear_arith)
            requires
                (r as int) * (r as int) <= n as int,
                n as int <= 72_000_000_000_000_000_000_000_000_000_000_000_000,
        ;
        if n == 0 {
            assert(dx as int == 0 && dy as int == 0) by (nonlinear_arith)
                requires
                    (dx as int) * (dx as int) + (dy as int) * (dy as int) == 0,
            ;
        }
        if *point_1 == *point_2 {
            assert(distance_squared_spec(*point_1, *point_2) == 0) by (nonlinear_arith)
                requires
                    point_1.x == point_2.x,
                    point_1.y == point_2.y,
                    distance_squared_spec(*point_1, *point_2) == (point_1.x - point_2.x) * (
                    point_1.x - point_2.x) + (point_1.y - point_2.y) * (point_1.y - point_2.y),
            ;
        }
        if r == 0 {
            assert(n as int <= 0) by (nonlinear_arith)
                requires
                    (n as int) < ((r as int) + 1) * ((r as int) + 1),
                    r as int == 0,
            ;
        }
    }
    r as i64
}

/// A point is at distance zero from itself.
pub proof fn lemma_distance_zero(point: Point)
    ensures
        distance_spec(point, point) == 0,
{
    assert(distance_squared_spec(point, point) == 0) by (nonlinear_arith);
}

/// Distance does not depend on the order of its endpoints.
pub proof fn lemma_distance_symmetric(point_1: Point, point_2: Point)
    ensures
        distance_spec(point_1, point_2) == distance_spec(point_2, point_1),
{
    assert(distance_squared_spec(point_1, point_2) == distance_squared_spec(point_2, point_1))
        by (nonlinear_arith);
}

/// The triangle inequality, up to the one unit that rounding the two
/// summed distances down can lose.
pub proof fn lemma_distance_triangle(a: Point, b: Point, c: Point)
    ensures
        distance_spec(a, c) <= distance_spec(a, b) + distance_spec(b, c) + 1,
{
    let x1 = (a.x - b.x) as int;
    let y1 = (a.y - b.y) as int;
    let x2 = (b.x - c.x) as int;
    let y2 = (b.y - c.y) as int;
    let n1 = distance_squared_spec(a, b);
    let n2 = distance_squared_spec(b, c);
    let n3 = distance_squared_spec(a, c);
    assert(n3 == n1 + n2 + 2 * (x1 * x2 + y1 * y2)) by (nonlinear_arith)
        requires
            n1 == x1 * x1 + y1 * y1,
            n2 == x2 * x2 + y2 * y2,
            n3 == (x1 + x2) * (x1 + x2) + (y1 + y2) * (y1 + y2),
    ;
    let dot = x1 * x2 + y1 * y2;
    assert(n1 >= 0 && n2 >= 0) by (nonlinear_arith)
        requires
            n1 == x1 * x1 + y1 * y1,
            n2 == x2 * x2 + y2 * y2,
    ;
    // Cauchy-Schwarz, through the Lagrange identity, in small steps.
    let p = x1 * x2;
    let q = y1 * y2;
    let u = x1 * y2;
    let v = y1 * x2;
    assert(n1 * n2 == (x1 * x1) * (x2 * x2) + (x1 * x1) * (y2 * y2) + (y1 * y1) * (x2 * x2) + (y1
        * y1) * (y2 * y2)) by (nonlinear_arith)
        requires
            n1 == x1 * x1 + y1 * y1,
            n2 == x2 * x2 + y2 * y2,
    ;
    assert((x1 * x1) * (x2 * x2) == p * p) by (nonlinear_arith)
        requires
            p == x1 * x2,
    ;
    assert((y1 * y1) * (y2 * y2) == q * q) by (nonlinear_arith)
        requires
            q == y1 * y2,
    ;
    assert((x1 * x1) * (y2 * y2) == u * u) by (nonlinear_arith)
        requires
            u == x1 * y2,
    ;
    assert((y1 * y1) * (x2 * x2) == v * v) by (nonlinear_arith)
        requires
            v == y1 * x2,
    ;
    assert(n1 * n2 == p * p + q * q + u * u + v * v);
    assert(p * q == u * v) by (nonlinear_arith)
        requires
            p == x1 * x2,
            q == y1 * y2,
            u == x1 * y2,
            v == y1 * x2,
    ;
    assert(dot * dot == p * p + 2 * (p * q) + q * q) by (nonlinear_arith)
        requires
            dot == p + q,
    ;
    assert(u * u + v * v - 2 * (u * v) >= 0) by (nonlinear_arith);
    assert(dot * dot <= n1 * n2);
    assert(n3 >= 0) by (nonlinear_arith)
        requires
            n3 == (x1 + x2) * (x1 + x2) + (y1 + y2) * (y1 + y2),
    ;
    let r1 = isqrt_spec(n1 as nat) as int;
    let r2 = isqrt_spec(n2 as nat) as int;
    let r3 = isqrt_spec(n3 as nat) as int;
    lemma_isqrt_bounds(n1 as nat);
    lemma_isqrt_bounds(n2 as nat);
    lemma_isqrt_bounds(n3 as nat);
    assert(dot < (r1 + 1) * (r2 + 1)) by (nonlinear_arith)
        requires
            dot * dot <= n1 * n2,
            n1 < (r1 + 1) * (r1 + 1),
            n2 < (r2 + 1) * (r2 + 1),
            n1 >= 0,
            n2 >= 0,
            r1 >= 0,
            r2 >= 0,
    ;
    assert(n3 < (r1 + r2 + 2) * (r1 + r2 + 2)) by (nonlinear_arith)
        requires
            n3 == n1 + n2 + 2 * dot,
            dot < (r1 + 1) * (r2 + 1),
            n1 < (r1 + 1) * (r1 + 1),
            n2 < (r2 + 1) * (r2 + 1),
    ;
    assert(r3 <= r1 + r2 + 1) by (nonlinear_arith)
        requires
            r3 * r3 <= n3,
            n3 < (r1 + r2 + 2) * (r1 + r2 + 2),
            r3 >= 0,
            r1 >= 0,
            r2 >= 0,
    ;
}

/// The bearing from the first point to the second, clockwise from north
/// in `[0, 360)` degrees: the axes resolve exactly, and elsewhere the
/// octant-folded arctangent approximation gives the angle off the nearer
/// `y` axis direction.
pub open spec fn bearing_spec(point_1: Point, point_2: Point) -> int {
    let rx = point_2.x - point_1.x;
    let ry = point_2.y - point_1.y;
    if rx == 0 {
        if ry > 0 {
            0
        } else {
            HALF_TURN as int
        }
    } else if ry == 0 {
        if rx > 0 {
            QUARTER_TURN as int
        } else {
            HALF_TURN as int + QUARTER_TURN as int
        }
    } else {
        let ax = abs_spec(rx);
        let ay = abs_spec(ry);
        let off = if ax <= ay {
            atan45_spec(ax, ay)
        } else {
            QUARTER_TURN as int - atan45_spec(ay, ax)
        };
        if rx > 0 {
            if ry > 0 {
                off
            } else {
                HALF_TURN as int - off
            }
        } else {
            if ry < 0 {
                HALF_TURN as int + off
            } else if off == 0 {
                0
            } else {
                FULL_TURN as int - off
            }
        }
    }
}

/// Computes the bearing from the first point to the second, clockwise in
/// `[0, 360)` degrees, with north (the `+y` direction) at zero.  Exact on
/// the axes and diagonals; elsewhere the approximate arctangent keeps the
/// bearing inside the closed quadrant of the offset.
pub fn relative_degrees(point_1: &Point, point_2: &Point) -> (r: Degrees)
    requires
        abs_spec(point_1.x as int) <= MAX_COORDINATE,
        abs_spec(point_1.y as int) <= MAX_COORDINATE,
        abs_spec(point_2.x as int) <= MAX_COORDINATE,
        abs_spec(point_2.y as int) <= MAX_COORDINATE,
    ensures
        r == bearing_spec(*point_1, *point_2),
        0 <= r < FULL_TURN,
        point_2.x == point_1.x && point_2.y > point_1.y ==> r == 0,
        point_2.x == point_1.x && point_2.y <= point_1.y ==> r == HALF_TURN,
        point_2.x > point_1.x && point_2.y == point_1.y ==> r == QUARTER_TURN,
        point_2.x < point_1.x && point_2.y == point_1.y ==> r == HALF_TURN + QUARTER_TURN,
        point_2.x > point_1.x && point_2.y > point_1.y ==> 0 <= r <= QUARTER_TURN,
        point_2.x > point_1.x && point_2.y < point_1.y ==> QUARTER_TURN <= r <= HALF_TURN,
        point_2.x < point_1.x && point_2.y < point_1.y ==> HALF_TURN <= r <= HALF_TURN
            + QUARTER_TURN,
        point_2.x < point_1.x && point_2.y > point_1.y ==> r == 0 || HALF_TURN + QUARTER_TURN <= r
            < FULL_TURN,
        point_2.x - point_1.x == point_2.y - point_1.y && point_2.x > point_1.x ==> r == 45_000_000,
        point_2.x - point_1.x == point_1.y - point_2.y && point_2.x > point_1.x ==> r
            == 135_000_000,
        point_2.x - point_1.x == point_2.y - point_1.y && point_2.x < point_1.x ==> r
            == 225_000_000,
        point_1.x - point_2.x == point_2.y - point_1.y && point_2.x < point_1.x ==> r
            == 315_000_000,
{
    let relative_x_m: i64 = point_2.x - point_1.x;
    let relative_y_m: i64 = point_2.y - point_1.y;
    if relative_x_m == 0 {
        if relative_y_m > 0 {
            return 0;
        }
        return HALF_TURN;
    }
    if relative_y_m == 0 {
        if relative_x_m > 0 {
            return QUARTER_TURN;
        }
        return HALF_TURN + QUARTER_TURN;
    }
    let abs_x: i64 = if relative_x_m < 0 {
        -relative_x_m
    } else {
        relative_x_m
    };
    let abs_y: i64 = if relative_y_m < 0 {
        -relative_y_m
    } else {
        relative_y_m
    };
    // The angle between the bearing and the nearer y axis direction.
    let off_north: Degrees = if abs_x <= abs_y {
        atan_d(abs_x, abs_y)
    } else {
        QUARTER_TURN - atan_d(abs_y, abs_x)
    };
    if relative_x_m > 0 {
        if relative_y_m > 0 {
            off_north
        } else {
            HALF_TURN - off_north
        }
    } else {
        if relative_y_m < 0 {
            HALF_TURN + off_north
        } else {
            if off_north == 0 {
                0
            } else {
                FULL_TURN - off_north
            }
        }
    }
}

/// Nanodegrees of latitude or longitude.
pub type NanoDegrees = i64;

/// Pi, in billionths.
pub const PI_NANO: i64 = 3_141_592_653;

/// The latitude of the anchor of the local planar frame, in nanodegrees.
pub const CENTRAL_LATITUDE_ND: i64 = 40_094_180_400;

/// The longitude of the anchor of the local planar frame, in nanodegrees.
pub const CENTRAL_LONGITUDE_ND: i64 = -105_187_209_200;

/// Returns the equatorial radius of the Earth, in millionths of a meter.
pub fn equatorial_radius_m() -> (r: i64)
    ensures
        r == 6_378_137_000_000i64,
{
    6_378_137_000_000
}

/// Meters per degree of latitude (the equatorial circumference divided
/// into 360 degrees), in millionths of a meter.
pub open spec fn m_per_latitude_spec() -> int {
    tdiv(6_378_137_000_000 * (2 * PI_NANO), (360 * 1_000_000_000) as int)
}

/// Returns the number of meters per degree of latitude, in millionths of
/// a meter.
pub fn m_per_latitude_d() -> (r: i64)
    ensures
        r == m_per_latitude_spec(),
        0 < r < 200_000_000_000,
{
    let circumference: i128 = (equatorial_radius_m() as i128) * (2 * (PI_NANO as i128));
    proof {
        vstd::arithmetic::div_mod::lemma_div_pos_is_pos(circumference as int, 360_000_000_000);
        vstd::arithmetic::div_mod::lemma_div_is_ordered(
            circumference as int,
            72_000_000_000_000_000_000_000_000,
            360_000_000_000,
        );
    }
    let r = div_i128(circumference, 360_000_000_000);
    r as i64
}

/// Meters per degree of longitude at a latitude: the parallel's radius is
/// the equatorial radius scaled by the cosine of the latitude.
pub open spec fn m_per_longitude_spec(latitude: int) -> int {
    let radius = tdiv(cosine_spec(tdiv(latitude, 1000)) * 6_378_137_000_000, 1_000_000);
    tdiv(radius * (2 * PI_NANO), (360 * 1_000_000_000) as int)
}

/// Returns the number of meters per degree longitude at a given latitude
/// in nanodegrees, in millionths of a meter.
pub fn latitude_d_to_m_per_longitude_d(latitude: NanoDegrees) -> (r: i64)
    requires
        latitude != i64::MIN,
    ensures
        r == m_per_longitude_spec(latitude as int),
        -200_000_000_000 < r < 200_000_000_000,
        wrap_spec(tdiv(latitude as int, 1000)) == 0 ==> r == m_per_latitude_spec(),
{
    let latitude_micro = div_i128(latitude as i128, 1000);
    let cosine = cosine_d(latitude_micro as i64);
    proof {
        lemma_mul_abs_bound(cosine as int, 1_000_000, 6_378_137_000_000, 6_378_137_000_000);
        lemma_tdiv_bound(
            (cosine as int) * 6_378_137_000_000,
            1_000_000,
            6_378_137_000_000,
        );
    }
    let radius_m: i128 = div_i128((cosine as i128) * 6_378_137_000_000, 1_000_000);
    proof {
        lemma_mul_abs_bound(radius_m as int, 6_378_137_000_000, 2 * (PI_NANO as int), 2 * (
        PI_NANO as int));
        lemma_tdiv_bound(
            (radius_m as int) * (2 * (PI_NANO as int)),
            360_000_000_000,
            200_000_000_000,
        );
        lemma_mul_abs_bound(radius_m as int, 6_378_137_000_000, 2 * (PI_NANO as int), 2 * (
        PI_NANO as int));
        assert(200_000_000_000int * 360_000_000_000 >= 6_378_137_000_000 * (2 * (PI_NANO as int)));
    }
    let circumference_m: i128 = radius_m * (2 * (PI_NANO as i128));
    let r = div_i128(circumference_m, 360_000_000_000);
    r as i64
}

/// Where a latitude and longitude fall in the local planar frame: each
/// offset from the anchor, scaled by the local meters-per-degree.
pub open spec fn lat_long_point_spec(latitude: int, longitude: int) -> Point {
    Point {
        x: tdiv(
            m_per_longitude_spec(CENTRAL_LATITUDE_ND as int) * (longitude
                - CENTRAL_LONGITUDE_ND as int),
            1_000_000_000,
        ) as i64,
        y: tdiv(m_per_latitude_spec() * (latitude - CENTRAL_LATITUDE_ND as int), 1_000_000_000) as i64,
    }
}

/// Latitude and longitude to meters from the anchor coordinate.  This is
/// a flat-earth approximation; it holds to centimeters within a few
/// kilometers of the anchor and degrades beyond.
pub fn latitude_longitude_to_point(latitude: NanoDegrees, longitude: NanoDegrees) -> (r: Point)
    requires
        abs_spec(latitude as int) <= 90_000_000_000,
        abs_spec(longitude as int) <= 180_000_000_000,
    ensures
        r == lat_long_point_spec(latitude as int, longitude as int),
        abs_spec(r.x as int) <= 60_000_000_000_000,
        abs_spec(r.y as int) <= 60_000_000_000_000,
{
    let m_per_longitude = latitude_d_to_m_per_longitude_d(CENTRAL_LATITUDE_ND);
    let m_per_latitude = m_per_latitude_d();
    let longitude_diff: i128 = (longitude as i128) - (CENTRAL_LONGITUDE_ND as i128);
    let latitude_diff: i128 = (latitude as i128) - (CENTRAL_LATITUDE_ND as i128);
    proof {
        lemma_mul_abs_bound(
            m_per_longitude as int,
            200_000_000_000,
            longitude_diff as int,
            300_000_000_000,
        );
        lemma_tdiv_bound(
            (m_per_longitude as int) * (longitude_diff as int),
            1_000_000_000,
            60_000_000_000_000,
        );
        lemma_mul_abs_bound(
            m_per_latitude as int,
            200_000_000_000,
            latitude_diff as int,
            300_000_000_000,
        );
        lemma_tdiv_bound(
            (m_per_latitude as int) * (latitude_diff as int),
            1_000_000_000,
            60_000_000_000_000,
        );
    }
    let x = div_i128((m_per_longitude as i128) * longitude_diff, 1_000_000_000);
    let y = div_i128((m_per_latitude as i128) * latitude_diff, 1_000_000_000);
    Point { x: x as i64, y: y as i64 }
}

/// Estimation of converting horizontal dilution of precision to a
/// standard deviation in meters: twice the dilution.
pub fn hdop_to_std_dev(hdop: i64) -> (r: Meter)
    requires
        0 <= hdop <= 1_000_000_000_000,
    ensures
        r == 2 * hdop,
{
    2 * hdop
}

/// Provides telemetry data, possibly filtered to be more accurate.
pub trait Telemetry {
    /// The state the estimator would report now.
    spec fn state_spec(&self) -> TelemetryState;

    /// The estimator's internal invariant.
    spec fn wf_spec(&self) -> bool;

    /// Returns the raw GPS sensor readings.
    fn get_raw_gps(&self) -> &GpsMessage;

    /// Returns the raw compass sensor readings.
    fn get_raw_compass(&self) -> &CompassMessage;

    /// Returns the (possibly filtered) telemetry data.
    fn get_data(&self) -> (state: &TelemetryState)
        ensures
            *state == self.state_spec(),
    ;

    /// End point for processing commands executed by the command module.
    fn process_drive_command(&mut self, throttle: i64, steering: i64)
        ensures
            final (self).wf_spec() == old(self).wf_spec(),
    ;

    /// Processes a telemetry message observed `elapsed_s` seconds (in
    /// millionths of a second) after the previous one; reports whether
    /// the observation could be applied.
    fn handle_message(&mut self, message: &TelemetryMessage, elapsed_s: i64) -> (applied: bool)
        requires
            old(self).wf_spec(),
            0 <= elapsed_s <= 60_000_000,
        ensures
            final (self).wf_spec(),
    ;

    /// Returns true if the car is stopped.
    fn is_stopped(&self) -> (stopped: bool)
        ensures
            stopped == self.state_spec().stopped,
    ;
}

} // verus!
