//! The fixed-point scalar core: exact values for every operation.

use ship::fixed::{
    fx_abs, fx_add, fx_clamp, fx_div, fx_floor_units, fx_fract, fx_from_units, fx_lerp, fx_max,
    fx_min, fx_mod, fx_mul, fx_sqrt, fx_sub, FX_HALF, FX_ONE, FX_SAT,
};
use ship::trig::{
    fx_atan2, fx_cos, fx_pow32, fx_sin, FX_HALF_PI, FX_PI, FX_TWO_PI,
};

#[test]
fn mul_rescales_exactly() {
    assert_eq!(fx_mul(3 * FX_ONE, 2 * FX_ONE), 6 * FX_ONE);
    assert_eq!(fx_mul(-3 * FX_ONE, 2 * FX_ONE), -6 * FX_ONE);
    assert_eq!(fx_mul(FX_ONE, FX_HALF), FX_HALF);
}

#[test]
fn mul_rounds_toward_negative_infinity() {
    assert_eq!(fx_mul(1, 1), 0);
    assert_eq!(fx_mul(-1, 1), -1);
}

#[test]
fn addition_saturates_at_the_band() {
    assert_eq!(fx_add(FX_SAT, FX_SAT), FX_SAT);
    assert_eq!(fx_sub(-FX_SAT, FX_SAT), -FX_SAT);
    assert_eq!(fx_add(2 * FX_ONE, 3 * FX_ONE), 5 * FX_ONE);
}

#[test]
fn division_truncates_and_guards_zero() {
    assert_eq!(fx_div(FX_ONE, 3 * FX_ONE), 21845);
    assert_eq!(fx_div(-FX_ONE, 3 * FX_ONE), -21845);
    assert_eq!(fx_div(6 * FX_ONE, 2 * FX_ONE), 3 * FX_ONE);
    assert_eq!(fx_div(12345, 0), 0);
}

#[test]
fn square_root_is_the_floor_root() {
    assert_eq!(fx_sqrt(4 * FX_ONE), 2 * FX_ONE);
    assert_eq!(fx_sqrt(2 * FX_ONE), 92681);
    assert_eq!(fx_sqrt(0), 0);
    assert_eq!(fx_sqrt(-5 * FX_ONE), 0);
}

#[test]
fn floor_fract_and_mod_are_euclidean() {
    assert_eq!(fx_floor_units(3 * FX_ONE + 5), 3);
    assert_eq!(fx_floor_units(-1), -1);
    assert_eq!(fx_fract(-1), FX_ONE - 1);
    assert_eq!(fx_fract(3 * FX_ONE + 5), 5);
    assert_eq!(fx_mod(-1, FX_TWO_PI), FX_TWO_PI - 1);
    assert_eq!(fx_mod(FX_TWO_PI + 7, FX_TWO_PI), 7);
}

#[test]
fn magnitude_and_bounds_helpers() {
    assert_eq!(fx_abs(-42), 42);
    assert_eq!(fx_abs(i64::MIN), FX_SAT);
    assert_eq!(fx_clamp(100, 0, 50), 50);
    assert_eq!(fx_clamp(-10, 0, 50), 0);
    assert_eq!(fx_max(3, 7), 7);
    assert_eq!(fx_min(3, 7), 3);
    assert_eq!(fx_from_units(3), 3 * FX_ONE);
}

#[test]
fn lerp_meets_its_endpoints() {
    assert_eq!(fx_lerp(10000, -20000, 0), 10000);
    assert_eq!(fx_lerp(10000, -20000, FX_ONE), -20000);
    let mid = fx_lerp(0, FX_ONE, FX_HALF);
    assert_eq!(mid, FX_HALF);
}

#[test]
fn sine_and_cosine_exact_samples() {
    assert_eq!(fx_sin(0), 0);
    assert_eq!(fx_sin(FX_HALF_PI), FX_ONE - 1);
    assert_eq!(fx_sin(FX_PI + FX_HALF_PI), -(FX_ONE - 1));
    assert_eq!(fx_cos(0), FX_ONE - 1);
    // periodic: one full turn returns the same value
    assert_eq!(fx_sin(FX_HALF_PI + FX_TWO_PI), fx_sin(FX_HALF_PI));
}

#[test]
fn sine_stays_in_its_band() {
    let mut a: i64 = -10 * FX_ONE;
    while a < 10 * FX_ONE {
        let s = fx_sin(a);
        assert!(-FX_ONE <= s && s <= FX_ONE);
        a += 12345;
    }
}

#[test]
fn atan2_quadrants() {
    assert_eq!(fx_atan2(0, 0), 0);
    assert_eq!(fx_atan2(0, FX_ONE), 0);
    assert_eq!(fx_atan2(FX_ONE, 0), FX_HALF_PI);
    assert_eq!(fx_atan2(0, -FX_ONE), FX_PI);
    let a = fx_atan2(-FX_ONE, 0);
    assert_eq!(a, -FX_HALF_PI);
    let b = fx_atan2(FX_ONE, FX_ONE);
    assert!(b > 0 && b < FX_HALF_PI);
}

#[test]
fn pow32_collapses_fractions() {
    assert_eq!(fx_pow32(FX_ONE), FX_ONE);
    assert_eq!(fx_pow32(0), 0);
    assert_eq!(fx_pow32(-5), 0);
    assert_eq!(fx_pow32(FX_HALF), 0);
    assert_eq!(fx_pow32(2 * FX_ONE), FX_ONE);
}
