//! Fixed-point trigonometry on headings in millionths of a degree.
//!
//! `sine_d` and `cosine_d` return millionths of the real sine and cosine,
//! computed from a Taylor expansion after folding the angle into one
//! quadrant; they are exact on the four axes and clamped into
//! `[-1_000_000, 1_000_000]`.  `atan_d` is a rational approximation of the
//! arctangent over one octant, exact at its endpoints.

use vstd::prelude::*;
use crate::math::{clamp_spec, tdiv, div_i128, clamp_i128};
use crate::telemetry::{wrap_spec, Degrees, FULL_TURN, HALF_TURN, QUARTER_TURN};
use crate::telemetry::wrap_degrees;

verus! {

/// Nanoradians per degree (the fixed-point factor pi / 180).
pub const NANO_RADIANS_PER_DEGREE: i64 = 17_453_293;

/// The Taylor expansion of the sine, on a quarter turn, in millionths.
///
/// The angle is scaled to nanoradians and the series is truncated after
/// the ninth power; every division truncates toward zero, and the sum is
/// clamped into `[0, 1_000_000]`.
pub open spec fn sin_quarter_spec(r: int) -> int {
    let x = tdiv(r * NANO_RADIANS_PER_DEGREE, 1_000_000);
    let x2 = x * x;
    let t3 = tdiv(x * x2, 6_000_000_000_000_000_000);
    let t5 = tdiv(t3 * x2, 20_000_000_000_000_000_000);
    let t7 = tdiv(t5 * x2, 42_000_000_000_000_000_000);
    let t9 = tdiv(t7 * x2, 72_000_000_000_000_000_000);
    clamp_spec(tdiv(x - t3 + t5 - t7 + t9, 1000), 0, 1_000_000)
}

/// The fixed-point sine of a heading, in millionths: the angle is folded
/// into `[0, 360)` degrees, exact on the axes, and otherwise given by the
/// quadrant-folded Taylor expansion.
pub open spec fn sine_spec(degrees: int) -> int {
    let w = wrap_spec(degrees);
    let q = w / (QUARTER_TURN as int);
    let r = w % (QUARTER_TURN as int);
    if r == 0 {
        if q == 0 {
            0
        } else if q == 1 {
            1_000_000
        } else if q == 2 {
            0
        } else {
            -1_000_000
        }
    } else {
        if q == 0 {
            sin_quarter_spec(r)
        } else if q == 1 {
            sin_quarter_spec(QUARTER_TURN as int - r)
        } else if q == 2 {
            -sin_quarter_spec(r)
        } else {
            -sin_quarter_spec(QUARTER_TURN as int - r)
        }
    }
}

/// The fixed-point cosine: the sine a quarter turn ahead.
pub open spec fn cosine_spec(degrees: int) -> int {
    sine_spec(wrap_spec(degrees) + QUARTER_TURN as int)
}

/// A Taylor term times `x2`, divided by a larger constant, stays in
/// `[0, term]`.
proof fn lemma_taylor_step(t: int, x2: int, d: int)
    requires
        0 <= t,
        0 <= x2 <= d,
        0 < d,
    ensures
        0 <= (t * x2) / d <= t,
{
    vstd::arithmetic::mul::lemma_mul_nonnegative(t, x2);
    vstd::arithmetic::div_mod::lemma_div_pos_is_pos(t * x2, d);
    vstd::arithmetic::mul::lemma_mul_inequality(x2, d, t);
    assert(x2 * t == t * x2) by (nonlinear_arith);
    assert(d * t == t * d) by (nonlinear_arith);
    vstd::arithmetic::div_mod::lemma_div_is_ordered(t * x2, t * d, d);
    vstd::arithmetic::div_mod::lemma_div_multiples_vanish(t, d);
}

/// The Taylor expansion of the sine on one quadrant, in millionths.
fn sin_quarter(r: i64) -> (s: i64)
    requires
        0 <= r <= QUARTER_TURN,
    ensures
        s == sin_quarter_spec(r as int),
        0 <= s <= 1_000_000,
{
    proof {
        vstd::arithmetic::mul::lemma_mul_nonnegative(r as int, NANO_RADIANS_PER_DEGREE as int);
        vstd::arithmetic::mul::lemma_mul_inequality(
            r as int,
            QUARTER_TURN as int,
            NANO_RADIANS_PER_DEGREE as int,
        );
        vstd::arithmetic::div_mod::lemma_div_is_ordered(
            (r as int) * (NANO_RADIANS_PER_DEGREE as int),
            (QUARTER_TURN as int) * (NANO_RADIANS_PER_DEGREE as int),
            1_000_000,
        );
        vstd::arithmetic::div_mod::lemma_div_pos_is_pos(
            (r as int) * (NANO_RADIANS_PER_DEGREE as int),
            1_000_000,
        );
        assert((QUARTER_TURN as int) * (NANO_RADIANS_PER_DEGREE as int) / 1_000_000
            == 1_570_796_370);
    }
    let x: i128 = div_i128((r as i128) * (NANO_RADIANS_PER_DEGREE as i128), 1_000_000);
    proof {
        vstd::arithmetic::mul::lemma_mul_nonnegative(x as int, x as int);
        vstd::arithmetic::mul::lemma_mul_upper_bound(
            x as int,
            1_570_796_370,
            x as int,
            1_570_796_370,
        );
    }
    let x2: i128 = x * x;
    proof {
        vstd::arithmetic::mul::lemma_mul_upper_bound(
            x as int,
            1_570_796_370,
            x2 as int,
            6_000_000_000_000_000_000,
        );
        vstd::arithmetic::mul::lemma_mul_nonnegative(x as int, x2 as int);
        lemma_taylor_step(x as int, x2 as int, 6_000_000_000_000_000_000);
    }
    let t3: i128 = div_i128(x * x2, 6_000_000_000_000_000_000);
    proof {
        vstd::arithmetic::mul::lemma_mul_upper_bound(
            t3 as int,
            1_570_796_370,
            x2 as int,
            20_000_000_000_000_000_000,
        );
        vstd::arithmetic::mul::lemma_mul_nonnegative(t3 as int, x2 as int);
        lemma_taylor_step(t3 as int, x2 as int, 20_000_000_000_000_000_000);
    }
    let t5: i128 = div_i128(t3 * x2, 20_000_000_000_000_000_000);
    proof {
        vstd::arithmetic::mul::lemma_mul_upper_bound(
            t5 as int,
            1_570_796_370,
            x2 as int,
            42_000_000_000_000_000_000,
        );
        vstd::arithmetic::mul::lemma_mul_nonnegative(t5 as int, x2 as int);
        lemma_taylor_step(t5 as int, x2 as int, 42_000_000_000_000_000_000);
    }
    let t7: i128 = div_i128(t5 * x2, 42_000_000_000_000_000_000);
    proof {
        vstd::arithmetic::mul::lemma_mul_upper_bound(
            t7 as int,
            1_570_796_370,
            x2 as int,
            72_000_000_000_000_000_000,
        );
        vstd::arithmetic::mul::lemma_mul_nonnegative(t7 as int, x2 as int);
        lemma_taylor_step(t7 as int, x2 as int, 72_000_000_000_000_000_000);
    }
    let t9: i128 = div_i128(t7 * x2, 72_000_000_000_000_000_000);
    let s9: i128 = x - t3 + t5 - t7 + t9;
    let s6: i128 = div_i128(s9, 1000);
    clamp_i128(s6, 1_000_000)
}

/// The fixed-point sine of a heading in millionths of a degree, in
/// millionths of a unit.  Exact at every multiple of a quarter turn;
/// non-negative on the first half turn and non-positive on the second.
pub fn sine_d(degrees: Degrees) -> (s: i64)
    ensures
        s == sine_spec(degrees as int),
        -1_000_000 <= s <= 1_000_000,
        wrap_spec(degrees as int) == 0 ==> s == 0,
        wrap_spec(degrees as int) == QUARTER_TURN ==> s == 1_000_000,
        wrap_spec(degrees as int) == HALF_TURN ==> s == 0,
        wrap_spec(degrees as int) == HALF_TURN + QUARTER_TURN ==> s == -1_000_000,
        0 <= wrap_spec(degrees as int) <= HALF_TURN ==> s >= 0,
        HALF_TURN <= wrap_spec(degrees as int) < FULL_TURN ==> s <= 0,
{
    let w = wrap_degrees(degrees);
    let q: u64 = (w as u64) / 90_000_000;
    let rem: i64 = ((w as u64) % 90_000_000) as i64;
    proof {
        vstd::arithmetic::div_mod::lemma_fundamental_div_mod(w as int, QUARTER_TURN as int);
        vstd::arithmetic::div_mod::lemma_mod_division_less_than_divisor(
            w as int,
            QUARTER_TURN as int,
        );
        vstd::arithmetic::div_mod::lemma_div_pos_is_pos(w as int, QUARTER_TURN as int);
        vstd::arithmetic::div_mod::lemma_div_is_ordered(w as int, 359_999_999, QUARTER_TURN as int);
    }
    if rem == 0 {
        if q == 0 {
            0
        } else if q == 1 {
            1_000_000
        } else if q == 2 {
            0
        } else {
            -1_000_000
        }
    } else {
        if q == 0 {
            sin_quarter(rem)
        } else if q == 1 {
            sin_quarter(QUARTER_TURN - rem)
        } else if q == 2 {
            -sin_quarter(rem)
        } else {
            -sin_quarter(QUARTER_TURN - rem)
        }
    }
}

/// The fixed-point cosine of a heading in millionths of a degree, in
/// millionths of a unit: the sine a quarter turn ahead.
pub fn cosine_d(degrees: Degrees) -> (c: i64)
    ensures
        c == cosine_spec(degrees as int),
        -1_000_000 <= c <= 1_000_000,
        wrap_spec(degrees as int) == 0 ==> c == 1_000_000,
        wrap_spec(degrees as int) == QUARTER_TURN ==> c == 0,
        wrap_spec(degrees as int) == HALF_TURN ==> c == -1_000_000,
        wrap_spec(degrees as int) == HALF_TURN + QUARTER_TURN ==> c == 0,
        wrap_spec(degrees as int) < QUARTER_TURN || wrap_spec(degrees as int) > HALF_TURN
            + QUARTER_TURN ==> c >= 0,
        QUARTER_TURN <= wrap_spec(degrees as int) <= HALF_TURN + QUARTER_TURN ==> c <= 0,
{
    let w = wrap_degrees(degrees);
    let c = sine_d(w + QUARTER_TURN);
    proof {
        let shifted = (w as int) + QUARTER_TURN as int;
        if shifted < FULL_TURN as int {
            vstd::arithmetic::div_mod::lemma_small_mod(shifted as nat, FULL_TURN as nat);
        } else {
            vstd::arithmetic::div_mod::lemma_fundamental_div_mod_converse_mod(
                shifted,
                FULL_TURN as int,
                1,
                shifted - FULL_TURN as int,
            );
        }
        vstd::arithmetic::div_mod::lemma_small_mod(w as nat, FULL_TURN as nat);
    }
    c
}

/// The operand shrinking that precedes the arctangent approximation:
/// both are halved until the denominator fits in 31 bits, preserving the
/// ratio to within rounding.
pub open spec fn atan_shrink_spec(num: int, den: int) -> (int, int)
    recommends
        0 <= num <= den,
    decreases den,
{
    if den < 0x4000_0000 || den <= 0 {
        (num, den)
    } else {
        atan_shrink_spec(num / 2, den / 2)
    }
}

/// The arctangent approximation over one octant, in millionths of a
/// degree: `45 t + 15.6417 t (1 - t)` degrees for the shrunken ratio `t`.
pub open spec fn atan45_spec(num: int, den: int) -> int
    recommends
        0 <= num <= den,
        0 < den,
{
    let (n, d) = atan_shrink_spec(num, den);
    (45_000_000 * n * d + 15_641_700 * n * (d - n)) / (d * d)
}

/// The approximate arctangent of `num / den` over one octant, in
/// millionths of a degree: `45 * t + 15.6417 * t * (1 - t)` degrees for
/// the ratio `t`, after the operands are scaled down far enough to
/// multiply safely.  Exact at both octant endpoints.
pub fn atan_d(num: i64, den: i64) -> (a: Degrees)
    requires
        0 <= num <= den,
        0 < den,
    ensures
        a == atan45_spec(num as int, den as int),
        0 <= a <= 45_000_000,
        num == 0 ==> a == 0,
        num == den ==> a == 45_000_000,
{
    let mut n: i64 = num;
    let mut d: i64 = den;
    while d >= 0x4000_0000
        invariant
            0 <= n <= d,
            0 < d,
            num == 0 ==> n == 0,
            num == den ==> n == d,
            atan_shrink_spec(num as int, den as int) == atan_shrink_spec(n as int, d as int),
        decreases d,
    {
        n = ((n as u64) / 2) as i64;
        d = ((d as u64) / 2) as i64;
        proof {
            vstd::arithmetic::div_mod::lemma_div_is_ordered(n as int, d as int, 2);
        }
    }
    proof {
        assert(atan_shrink_spec(n as int, d as int) == (n as int, d as int));
    }
    let ni: i128 = n as i128;
    let di: i128 = d as i128;
    proof {
        vstd::arithmetic::mul::lemma_mul_nonnegative(45_000_000 * ni as int, di as int);
        vstd::arithmetic::mul::lemma_mul_nonnegative(15_641_700 * ni as int, di as int - ni as int);
        vstd::arithmetic::mul::lemma_mul_upper_bound(
            45_000_000 * ni as int,
            (45_000_000 * 0x4000_0000) as int,
            di as int,
            0x4000_0000,
        );
        vstd::arithmetic::mul::lemma_mul_upper_bound(
            15_641_700 * ni as int,
            (15_641_700 * 0x4000_0000) as int,
            di as int - ni as int,
            0x4000_0000,
        );
    }
    let numerator: i128 = 45_000_000 * ni * di + 15_641_700 * ni * (di - ni);
    proof {
        vstd::arithmetic::mul::lemma_mul_upper_bound(di as int, 0x4000_0000, di as int, 0x4000_0000);
        vstd::arithmetic::mul::lemma_mul_strict_inequality(0, di as int, di as int);
    }
    let denominator: i128 = di * di;
    let a128: i128 = div_i128(numerator, denominator);
    proof {
        assert(numerator >= 0 ==> tdiv(numerator as int, denominator as int) == (numerator as int)
            / (denominator as int));
        // The numerator never exceeds 45 degrees times the denominator:
        // (d - n) * (45_000_000 * d - 15_641_700 * n) >= 0.
        assert(numerator as int <= 45_000_000 * (denominator as int)) by (nonlinear_arith)
            requires
                0 <= ni as int <= di as int,
                numerator as int == 45_000_000 * (ni as int) * (di as int) + 15_641_700 * (
                ni as int) * (di as int - ni as int),
                denominator as int == (di as int) * (di as int),
        ;
        vstd::arithmetic::div_mod::lemma_div_is_ordered(
            numerator as int,
            45_000_000 * (denominator as int),
            denominator as int,
        );
        vstd::arithmetic::div_mod::lemma_div_multiples_vanish(45_000_000, denominator as int);
        vstd::arithmetic::div_mod::lemma_div_pos_is_pos(numerator as int, denominator as int);
        if num == 0 {
            assert(numerator == 0) by (nonlinear_arith)
                requires
                    ni == 0,
                    numerator as int == 45_000_000 * (ni as int) * (di as int) + 15_641_700 * (
                    ni as int) * (di as int - ni as int),
            ;
        }
        if num == den {
            assert(numerator as int == 45_000_000 * (denominator as int)) by (nonlinear_arith)
                requires
                    ni == di,
                    numerator as int == 45_000_000 * (ni as int) * (di as int) + 15_641_700 * (
                    ni as int) * (di as int - ni as int),
                    denominator as int == (di as int) * (di as int),
            ;
        }
    }
    a128 as i64
}

} // verus!
