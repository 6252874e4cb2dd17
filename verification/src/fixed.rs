//! Saturating fixed-point scalar arithmetic.
//!
//! A scalar is an `i64` holding the real value scaled by `FX_ONE` (2^16).
//! Every operation is total: it computes in wide integers and saturates at
//! `FX_SAT`, so no input makes it overflow or panic, and each result is
//! pinned exactly by an accompanying specification function.

use vstd::prelude::*;
use vstd::arithmetic::div_mod::{
    lemma_fundamental_div_mod, lemma_fundamental_div_mod_converse,
    lemma_mod_division_less_than_divisor, lemma_div_is_ordered, lemma_div_multiples_vanish,
    lemma_div_pos_is_pos, lemma_div_nonincreasing,
};

verus! {

/// The fixed-point representation of 1.0.
pub const FX_ONE: i64 = 65536;

/// The fixed-point representation of 0.5.
pub const FX_HALF: i64 = 32768;

/// Saturation bound of every arithmetic result: 2^40, about 1.6e7 in real
/// units, far beyond any value a rendered scene produces.
pub const FX_SAT: i64 = 1099511627776;

/// Magnitude of an integer.
pub open spec fn mag_s(x: int) -> int {
    if x < 0 {
        -x
    } else {
        x
    }
}

/// Saturation to the representable band [-FX_SAT, FX_SAT].
pub open spec fn clip_s(x: int) -> int {
    if x < -(FX_SAT as int) {
        -(FX_SAT as int)
    } else if x > FX_SAT as int {
        FX_SAT as int
    } else {
        x
    }
}

/// Saturating fixed-point addition.
pub open spec fn fx_add_s(a: int, b: int) -> int {
    clip_s(a + b)
}

/// Saturating fixed-point subtraction.
pub open spec fn fx_sub_s(a: int, b: int) -> int {
    clip_s(a - b)
}

/// Saturating fixed-point multiplication: the product rescaled by FX_ONE,
/// rounded toward negative infinity.
pub open spec fn fx_mul_s(a: int, b: int) -> int {
    clip_s((a * b) / (FX_ONE as int))
}

/// Saturating fixed-point division, rounded toward zero; division by zero
/// yields zero (the guarded fallback for numerical degeneracy).
pub open spec fn fx_div_s(a: int, b: int) -> int {
    if b == 0 {
        0
    } else {
        let q = (mag_s(a) * (FX_ONE as int)) / mag_s(b);
        if (a < 0) != (b < 0) {
            clip_s(-q)
        } else {
            clip_s(q)
        }
    }
}

/// The whole-unit floor of a fixed-point value, as a plain integer count.
pub open spec fn fx_floor_s(x: int) -> int {
    x / (FX_ONE as int)
}

/// The fractional part of a fixed-point value, in [0, FX_ONE).
pub open spec fn fx_fract_s(x: int) -> int {
    x % (FX_ONE as int)
}

/// Clamp into [lo, hi].
pub open spec fn fx_clamp_s(x: int, lo: int, hi: int) -> int {
    if x < lo {
        lo
    } else if x > hi {
        hi
    } else {
        x
    }
}

/// The larger of two values.
pub open spec fn fx_max_s(a: int, b: int) -> int {
    if a < b {
        b
    } else {
        a
    }
}

/// The smaller of two values.
pub open spec fn fx_min_s(a: int, b: int) -> int {
    if a < b {
        a
    } else {
        b
    }
}

/// Saturated magnitude.
pub open spec fn fx_abs_s(x: int) -> int {
    clip_s(mag_s(x))
}

/// Linear interpolation from a to b by the fixed-point weight t.
pub open spec fn fx_lerp_s(a: int, b: int, t: int) -> int {
    fx_add_s(a, fx_mul_s(fx_sub_s(b, a), t))
}

/// r is the integer square root of n.
pub open spec fn is_sqrt_of(r: int, n: int) -> bool {
    0 <= r && r * r <= n && n < (r + 1) * (r + 1)
}

/// The integer square root of a non-negative integer.
pub open spec fn int_sqrt(n: int) -> int
    recommends
        0 <= n,
{
    choose|r: int| is_sqrt_of(r, n)
}

/// Fixed-point square root: zero on non-positive input (guarded fallback),
/// else the floor of the square root of the real value, in fixed point.
pub open spec fn fx_sqrt_s(a: int) -> int {
    if a <= 0 {
        0
    } else {
        int_sqrt(a * (FX_ONE as int))
    }
}

/// Saturation into the band that `clip_s` describes.
fn clip128(x: i128) -> (r: i64)
    ensures
        r == clip_s(x as int),
        -FX_SAT <= r <= FX_SAT,
{
    if x < -(FX_SAT as i128) {
        -FX_SAT
    } else if x > FX_SAT as i128 {
        FX_SAT
    } else {
        x as i64
    }
}

/// Quotient of p by d, rounded toward negative infinity, matching the
/// Euclidean division of the specification level.
pub(crate) fn floor_div_i128(p: i128, d: u64) -> (q: i128)
    requires
        1 <= d,
        i128::MIN < p,
    ensures
        q == p as int / d as int,
{
    let du: u128 = d as u128;
    if p >= 0 {
        let qu: u128 = (p as u128) / du;
        proof {
            lemma_div_pos_is_pos(p as int, d as int);
            lemma_div_nonincreasing(p as int, d as int);
        }
        qu as i128
    } else {
        let n: u128 = (-p) as u128;
        let qc: u128 = (n + (du - 1)) / du;
        proof {
            let ni = n as int;
            let di = d as int;
            let q0 = ni / di;
            let r0 = ni % di;
            lemma_fundamental_div_mod(ni, di);
            lemma_mod_division_less_than_divisor(ni, di);
            lemma_div_pos_is_pos(ni, di);
            lemma_div_nonincreasing(ni, di);
            if r0 == 0 {
                assert(-ni == di * (-q0) + 0) by (nonlinear_arith)
                    requires
                        ni == di * q0 + r0,
                        r0 == 0,
                ;
                lemma_fundamental_div_mod_converse(-ni, di, -q0, 0);
                assert(ni + di - 1 == di * q0 + (di - 1)) by (nonlinear_arith)
                    requires
                        ni == di * q0 + r0,
                        r0 == 0,
                ;
                lemma_fundamental_div_mod_converse(ni + di - 1, di, q0, di - 1);
            } else {
                assert(-ni == di * (-q0 - 1) + (di - r0)) by (nonlinear_arith)
                    requires
                        ni == di * q0 + r0,
                ;
                lemma_fundamental_div_mod_converse(-ni, di, -q0 - 1, di - r0);
                assert(ni + di - 1 == di * (q0 + 1) + (r0 - 1)) by (nonlinear_arith)
                    requires
                        ni == di * q0 + r0,
                ;
                lemma_fundamental_div_mod_converse(ni + di - 1, di, q0 + 1, r0 - 1);
                if di >= 2 {
                    assert(2 * q0 <= ni) by (nonlinear_arith)
                        requires
                            di >= 2,
                            0 <= q0,
                            0 <= r0,
                            ni == di * q0 + r0,
                    ;
                }
            }
        }
        -(qc as i128)
    }
}

/// A whole-unit count taken into fixed point, saturated.
pub open spec fn fx_from_units_s(u: int) -> int {
    clip_s(u * (FX_ONE as int))
}

/// A whole-unit count taken into fixed point, saturated.
pub fn fx_from_units(u: i64) -> (r: i64)
    ensures
        r == fx_from_units_s(u as int),
        -FX_SAT <= r <= FX_SAT,
{
    clip128((u as i128) * 65536)
}

/// Euclidean remainder of x by a positive modulus, in [0, m).
pub fn fx_mod(x: i64, m: i64) -> (r: i64)
    requires
        1 <= m,
    ensures
        r == (x as int) % (m as int),
        0 <= r < m,
{
    let q = floor_div_i128(x as i128, m as u64);
    proof {
        lemma_fundamental_div_mod(x as int, m as int);
        lemma_mod_division_less_than_divisor(x as int, m as int);
    }
    ((x as i128) - (m as i128) * q) as i64
}

/// Saturating addition.
pub fn fx_add(a: i64, b: i64) -> (r: i64)
    ensures
        r == fx_add_s(a as int, b as int),
        -FX_SAT <= r <= FX_SAT,
{
    clip128((a as i128) + (b as i128))
}

/// Saturating subtraction.
pub fn fx_sub(a: i64, b: i64) -> (r: i64)
    ensures
        r == fx_sub_s(a as int, b as int),
        -FX_SAT <= r <= FX_SAT,
{
    clip128((a as i128) - (b as i128))
}

/// Saturating multiplication with rescale by FX_ONE.
pub fn fx_mul(a: i64, b: i64) -> (r: i64)
    ensures
        r == fx_mul_s(a as int, b as int),
        -FX_SAT <= r <= FX_SAT,
{
    proof {
        assert((i128::MIN as int) < (a as int) * (b as int) < (i128::MAX as int))
            by (nonlinear_arith)
            requires
                i64::MIN <= a <= i64::MAX,
                i64::MIN <= b <= i64::MAX,
        ;
    }
    let p: i128 = (a as i128) * (b as i128);
    let q = floor_div_i128(p, 65536);
    clip128(q)
}

/// Saturating division, rounded toward zero; zero divisor yields zero.
pub fn fx_div(a: i64, b: i64) -> (r: i64)
    ensures
        r == fx_div_s(a as int, b as int),
        -FX_SAT <= r <= FX_SAT,
{
    if b == 0 {
        return 0;
    }
    let na: u128 = if a < 0 {
        (-(a as i128)) as u128
    } else {
        a as u128
    };
    let nb: u128 = if b < 0 {
        (-(b as i128)) as u128
    } else {
        b as u128
    };
    let q: u128 = (na * 65536) / nb;
    let qi: i128 = q as i128;
    if (a < 0) != (b < 0) {
        clip128(-qi)
    } else {
        clip128(qi)
    }
}

/// Whole-unit floor, as a plain integer count of units.
pub fn fx_floor_units(x: i64) -> (r: i64)
    ensures
        r == fx_floor_s(x as int),
        -140737488355329 <= r <= 140737488355328,
{
    let q = floor_div_i128(x as i128, 65536);
    proof {
        lemma_fundamental_div_mod(x as int, FX_ONE as int);
        lemma_mod_division_less_than_divisor(x as int, FX_ONE as int);
    }
    q as i64
}

/// Fractional part, in [0, FX_ONE).
pub fn fx_fract(x: i64) -> (r: i64)
    ensures
        r == fx_fract_s(x as int),
        0 <= r < FX_ONE,
{
    let f = fx_floor_units(x);
    proof {
        lemma_fundamental_div_mod(x as int, FX_ONE as int);
        lemma_mod_division_less_than_divisor(x as int, FX_ONE as int);
    }
    x - 65536 * f
}

/// Clamp into [lo, hi].
pub fn fx_clamp(x: i64, lo: i64, hi: i64) -> (r: i64)
    requires
        lo <= hi,
    ensures
        r == fx_clamp_s(x as int, lo as int, hi as int),
        lo <= r <= hi,
{
    if x < lo {
        lo
    } else if x > hi {
        hi
    } else {
        x
    }
}

/// The larger of two values.
pub fn fx_max(a: i64, b: i64) -> (r: i64)
    ensures
        r == fx_max_s(a as int, b as int),
{
    if a < b {
        b
    } else {
        a
    }
}

/// The smaller of two values.
pub fn fx_min(a: i64, b: i64) -> (r: i64)
    ensures
        r == fx_min_s(a as int, b as int),
{
    if a < b {
        a
    } else {
        b
    }
}

/// Saturated magnitude.
pub fn fx_abs(x: i64) -> (r: i64)
    ensures
        r == fx_abs_s(x as int),
        0 <= r <= FX_SAT,
{
    let m: i128 = if x < 0 {
        -(x as i128)
    } else {
        x as i128
    };
    clip128(m)
}

/// Linear interpolation from a to b by the weight t.
pub fn fx_lerp(a: i64, b: i64, t: i64) -> (r: i64)
    ensures
        r == fx_lerp_s(a as int, b as int, t as int),
        -FX_SAT <= r <= FX_SAT,
{
    fx_add(a, fx_mul(fx_sub(b, a), t))
}

/// Interpolation stays between its endpoints, meets them exactly at the
/// extreme weights, and never saturates, whenever the endpoints lie in the
/// half band and the weight in [0, FX_ONE].
pub proof fn lemma_lerp_between(a: int, b: int, t: int)
    requires
        -(FX_SAT as int) / 2 <= a <= (FX_SAT as int) / 2,
        -(FX_SAT as int) / 2 <= b <= (FX_SAT as int) / 2,
        0 <= t <= FX_ONE,
    ensures
        fx_min_s(a, b) <= fx_lerp_s(a, b, t) <= fx_max_s(a, b),
        t == 0 ==> fx_lerp_s(a, b, t) == a,
        t == FX_ONE ==> fx_lerp_s(a, b, t) == b,
{
    let d = b - a;
    assert(fx_sub_s(b, a) == d);
    let m = (d * t) / (FX_ONE as int);
    if d >= 0 {
        assert(0 <= d * t <= d * (FX_ONE as int)) by (nonlinear_arith)
            requires
                0 <= d,
                0 <= t <= FX_ONE,
        ;
        lemma_div_is_ordered(0, d * t, FX_ONE as int);
        lemma_div_is_ordered(d * t, d * (FX_ONE as int), FX_ONE as int);
        lemma_div_multiples_vanish(d, FX_ONE as int);
        assert(d * (FX_ONE as int) == (FX_ONE as int) * d) by (nonlinear_arith);
        assert(0 <= m <= d);
    } else {
        assert(d * (FX_ONE as int) <= d * t <= 0) by (nonlinear_arith)
            requires
                d < 0,
                0 <= t <= FX_ONE,
        ;
        lemma_div_is_ordered(d * t, 0, FX_ONE as int);
        lemma_div_is_ordered(d * (FX_ONE as int), d * t, FX_ONE as int);
        lemma_div_multiples_vanish(d, FX_ONE as int);
        assert(d * (FX_ONE as int) == (FX_ONE as int) * d) by (nonlinear_arith);
        assert(d <= m <= 0);
    }
    assert(fx_mul_s(d, t) == m);
    if t == 0 {
        assert(d * 0 == 0) by (nonlinear_arith);
        lemma_div_multiples_vanish(0, FX_ONE as int);
    }
    if t == FX_ONE {
        lemma_div_multiples_vanish(d, FX_ONE as int);
        assert(d * (FX_ONE as int) == (FX_ONE as int) * d) by (nonlinear_arith);
        assert(m == d);
    }
}

/// The square of a value in [0, FX_ONE] stays in [0, FX_ONE] and does not
/// saturate.
pub proof fn lemma_unit_square(c: int)
    requires
        0 <= c <= FX_ONE,
    ensures
        0 <= fx_mul_s(c, c) <= FX_ONE,
        fx_mul_s(c, c) == (c * c) / (FX_ONE as int),
{
    assert(0 <= c * c <= (FX_ONE as int) * (FX_ONE as int)) by (nonlinear_arith)
        requires
            0 <= c <= FX_ONE,
    ;
    lemma_div_is_ordered(0, c * c, FX_ONE as int);
    lemma_div_is_ordered(c * c, (FX_ONE as int) * (FX_ONE as int), FX_ONE as int);
    lemma_div_multiples_vanish(FX_ONE as int, FX_ONE as int);
}

/// The integer square root of a non-negative number is unique.
pub proof fn lemma_sqrt_unique(r1: int, r2: int, n: int)
    requires
        is_sqrt_of(r1, n),
        is_sqrt_of(r2, n),
    ensures
        r1 == r2,
{
    assert(r1 == r2) by (nonlinear_arith)
        requires
            0 <= r1 && r1 * r1 <= n && n < (r1 + 1) * (r1 + 1),
            0 <= r2 && r2 * r2 <= n && n < (r2 + 1) * (r2 + 1),
    ;
}

/// Integer square root by bisection.
fn int_sqrt_exec(n: u128) -> (r: u64)
    requires
        n < 0x100000000000000000000u128,
    ensures
        is_sqrt_of(r as int, n as int),
        r < 0x10000000000u64,
{
    let mut lo: u64 = 0;
    let mut hi: u64 = 0x10000000000;
    proof {
        assert((0x10000000000 as int) * (0x10000000000 as int) == 0x100000000000000000000int)
            by (nonlinear_arith);
    }
    while hi - lo > 1
        invariant
            lo < hi,
            hi <= 0x10000000000,
            (lo as int) * (lo as int) <= n as int,
            (n as int) < (hi as int) * (hi as int),
        decreases hi - lo,
    {
        let mid: u64 = lo + (hi - lo) / 2;
        proof {
            assert((mid as int) * (mid as int) < 0x100000000000000000000000000000000int)
                by (nonlinear_arith)
                requires
                    mid <= 0x10000000000u64,
            ;
        }
        if (mid as u128) * (mid as u128) <= n {
            lo = mid;
        } else {
            hi = mid;
        }
    }
    proof {
        assert((n as int) < ((lo + 1) as int) * ((lo + 1) as int));
    }
    lo
}

/// Fixed-point square root: zero on non-positive input, else the floor of
/// the square root of the real value.
pub fn fx_sqrt(a: i64) -> (r: i64)
    ensures
        r == fx_sqrt_s(a as int),
        0 <= r <= FX_SAT,
{
    if a <= 0 {
        return 0;
    }
    let n: u128 = (a as u128) * 65536;
    let r = int_sqrt_exec(n);
    proof {
        let ni = (a as int) * (FX_ONE as int);
        assert(n as int == ni);
        assert(is_sqrt_of(int_sqrt(ni), ni)) by {
            assert(is_sqrt_of(r as int, ni));
        }
        lemma_sqrt_unique(r as int, int_sqrt(ni), ni);
    }
    r as i64
}

} // verus!
