//! Fixed-point circular functions and the specular exponent.
//!
//! Sine is a quadratic approximation on each half period after range
//! reduction; the arc tangent uses a first-order correction term. Both are
//! deterministic functions of their argument and are clamped into the exact
//! range that the contracts state.

use vstd::prelude::*;
use crate::fixed::{
    fx_add, fx_sub, fx_mul, fx_div, fx_mod, fx_clamp, fx_abs, FX_ONE, FX_SAT,
    fx_add_s, fx_sub_s, fx_mul_s, fx_div_s, fx_clamp_s, fx_abs_s, lemma_unit_square,
};

verus! {

/// 2*pi in fixed point.
pub const FX_TWO_PI: i64 = 411774;

/// pi in fixed point.
pub const FX_PI: i64 = 205887;

/// pi/2 in fixed point.
pub const FX_HALF_PI: i64 = 102944;

/// pi/4 in fixed point.
pub const FX_QUARTER_PI: i64 = 51472;

/// 4/pi^2 in fixed point, the scale of the quadratic sine arc.
pub const FX_FOUR_OVER_PI_SQ: i64 = 26561;

/// The arc-tangent correction coefficient 0.273 in fixed point.
pub const FX_ATAN_C: i64 = 17892;

/// The quadratic arc over one half period: 4 t (pi - t) / pi^2, clamped
/// into [0, FX_ONE].
pub open spec fn sin_arc_s(t: int) -> int {
    fx_clamp_s(fx_mul_s(fx_mul_s(t, fx_sub_s(FX_PI as int, t)), FX_FOUR_OVER_PI_SQ as int), 0, FX_ONE as int)
}

/// Fixed-point sine: range reduction into [0, 2 pi), then the quadratic
/// arc with odd symmetry on the second half period.
pub open spec fn fx_sin_s(x: int) -> int {
    let u = x % (FX_TWO_PI as int);
    if u <= FX_PI as int {
        sin_arc_s(u)
    } else {
        -sin_arc_s(u - FX_PI as int)
    }
}

/// Fixed-point cosine, as the sine of the shifted angle.
pub open spec fn fx_cos_s(x: int) -> int {
    fx_sin_s(fx_add_s(x, FX_HALF_PI as int))
}

/// Arc tangent of a ratio in [0, FX_ONE], clamped into [0, FX_HALF_PI].
pub open spec fn atan_unit_s(t: int) -> int {
    fx_clamp_s(
        fx_mul_s(t, fx_add_s(FX_QUARTER_PI as int, fx_mul_s(FX_ATAN_C as int, fx_sub_s(FX_ONE as int, t)))),
        0,
        FX_HALF_PI as int,
    )
}

/// The first-quadrant angle of the magnitudes (ay, ax).
pub open spec fn atan2_base_s(ay: int, ax: int) -> int {
    if ax >= ay {
        atan_unit_s(fx_div_s(ay, ax))
    } else {
        fx_sub_s(FX_HALF_PI as int, atan_unit_s(fx_div_s(ax, ay)))
    }
}

/// Fixed-point two-argument arc tangent, in [-pi, pi]; both arguments zero
/// yield zero (guarded fallback).
pub open spec fn fx_atan2_s(y: int, x: int) -> int {
    if x == 0 && y == 0 {
        0
    } else {
        let base = atan2_base_s(fx_abs_s(y), fx_abs_s(x));
        if x >= 0 && y >= 0 {
            base
        } else if x < 0 && y >= 0 {
            (FX_PI as int) - base
        } else if x < 0 {
            -((FX_PI as int) - base)
        } else {
            -base
        }
    }
}

/// The 32nd power of the value clamped into [0, FX_ONE], by five squarings.
pub open spec fn fx_pow32_s(x: int) -> int {
    let c = fx_clamp_s(x, 0, FX_ONE as int);
    let s1 = fx_mul_s(c, c);
    let s2 = fx_mul_s(s1, s1);
    let s3 = fx_mul_s(s2, s2);
    let s4 = fx_mul_s(s3, s3);
    fx_mul_s(s4, s4)
}

/// The quadratic arc over one half period.
fn sin_arc(t: i64) -> (r: i64)
    ensures
        r == sin_arc_s(t as int),
        0 <= r <= FX_ONE,
{
    fx_clamp(fx_mul(fx_mul(t, fx_sub(FX_PI, t)), FX_FOUR_OVER_PI_SQ), 0, FX_ONE)
}

/// Fixed-point sine, in [-FX_ONE, FX_ONE].
pub fn fx_sin(x: i64) -> (r: i64)
    ensures
        r == fx_sin_s(x as int),
        -FX_ONE <= r <= FX_ONE,
{
    let u = fx_mod(x, FX_TWO_PI);
    if u <= FX_PI {
        sin_arc(u)
    } else {
        -sin_arc(u - FX_PI)
    }
}

/// Fixed-point cosine, in [-FX_ONE, FX_ONE].
pub fn fx_cos(x: i64) -> (r: i64)
    ensures
        r == fx_cos_s(x as int),
        -FX_ONE <= r <= FX_ONE,
{
    fx_sin(fx_add(x, FX_HALF_PI))
}

/// Arc tangent of a ratio in [0, FX_ONE].
fn atan_unit(t: i64) -> (r: i64)
    ensures
        r == atan_unit_s(t as int),
        0 <= r <= FX_HALF_PI,
{
    fx_clamp(fx_mul(t, fx_add(FX_QUARTER_PI, fx_mul(FX_ATAN_C, fx_sub(FX_ONE, t)))), 0, FX_HALF_PI)
}

/// Fixed-point two-argument arc tangent, in [-pi, pi].
pub fn fx_atan2(y: i64, x: i64) -> (r: i64)
    ensures
        r == fx_atan2_s(y as int, x as int),
        -FX_PI <= r <= FX_PI,
{
    if x == 0 && y == 0 {
        return 0;
    }
    let ax = fx_abs(x);
    let ay = fx_abs(y);
    let base = if ax >= ay {
        atan_unit(fx_div(ay, ax))
    } else {
        fx_sub(FX_HALF_PI, atan_unit(fx_div(ax, ay)))
    };
    if x >= 0 && y >= 0 {
        base
    } else if x < 0 && y >= 0 {
        FX_PI - base
    } else if x < 0 {
        -(FX_PI - base)
    } else {
        -base
    }
}

/// The 32nd power of the value clamped into [0, FX_ONE].
pub fn fx_pow32(x: i64) -> (r: i64)
    ensures
        r == fx_pow32_s(x as int),
        0 <= r <= FX_ONE,
{
    let c = fx_clamp(x, 0, FX_ONE);
    let s1 = fx_mul(c, c);
    proof {
        lemma_unit_square(c as int);
    }
    let s2 = fx_mul(s1, s1);
    proof {
        lemma_unit_square(s1 as int);
    }
    let s3 = fx_mul(s2, s2);
    proof {
        lemma_unit_square(s2 as int);
    }
    let s4 = fx_mul(s3, s3);
    proof {
        lemma_unit_square(s3 as int);
    }
    let s5 = fx_mul(s4, s4);
    proof {
        lemma_unit_square(s4 as int);
    }
    s5
}

} // verus!
