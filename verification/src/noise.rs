//! The shared procedural noise primitives: a sine-based scalar hash, value
//! noise over a cubic lattice, and its fractal sums.
//!
//! Every function here is a pure function of its numeric inputs: its result
//! equals a specification function of the arguments alone, so identical
//! inputs always yield identical outputs, and the basic noise value always
//! lies in [0, FX_ONE).

use vstd::prelude::*;
use crate::fixed::{
    fx_add, fx_sub, fx_mul, fx_fract, fx_floor_units, fx_from_units, fx_abs,
    FX_ONE, FX_HALF, FX_SAT,
    fx_add_s, fx_sub_s, fx_mul_s, fx_fract_s, fx_floor_s, fx_from_units_s, fx_abs_s,
    fx_lerp_s, fx_max_s, mag_s, lemma_lerp_between,
};
use crate::trig::{fx_sin, fx_sin_s};
use crate::vec3::{Vec3, Vec3s};
use vstd::arithmetic::div_mod::{
    lemma_fundamental_div_mod_converse, lemma_div_is_ordered, lemma_div_multiples_vanish,
};

verus! {

/// The hash mixing frequency, 12.9898 in fixed point.
pub const FX_HASH_FREQ: i64 = 851300;

/// The hash mixing amplitude, 43758.5453 in fixed point.
pub const FX_HASH_AMP: i64 = 2867760025;

/// Three times FX_ONE, the constant of the smoothstep cubic.
pub const FX_THREE: i64 = 196608;

/// The pseudo-random scalar of one input: the fractional part of an
/// amplified sine. Not cryptographic; purely visual.
pub open spec fn hash_s(n: int) -> int {
    fx_fract_s(fx_mul_s(fx_sin_s(fx_mul_s(n, FX_HASH_FREQ as int)), FX_HASH_AMP as int))
}

/// The hash of one lattice corner, addressed by its unit coordinates.
pub open spec fn lattice_hash_s(ix: int, iy: int, iz: int) -> int {
    hash_s(fx_from_units_s(ix + 57 * iy + 113 * iz))
}

/// The smoothstep cubic f*f*(3 - 2*f) easing a fractional coordinate.
pub open spec fn smooth_s(f: int) -> int {
    fx_mul_s(fx_mul_s(f, f), fx_sub_s(FX_THREE as int, fx_add_s(f, f)))
}

/// Value noise at a point: trilinear interpolation, with smoothstep
/// easing, across the hashed corners of the surrounding lattice cell.
pub open spec fn noise3d_s(p: Vec3s) -> int {
    let ix = fx_floor_s(p.x);
    let iy = fx_floor_s(p.y);
    let iz = fx_floor_s(p.z);
    let ux = smooth_s(fx_fract_s(p.x));
    let uy = smooth_s(fx_fract_s(p.y));
    let uz = smooth_s(fx_fract_s(p.z));
    let nx00 = fx_lerp_s(lattice_hash_s(ix, iy, iz), lattice_hash_s(ix + 1, iy, iz), ux);
    let nx10 = fx_lerp_s(lattice_hash_s(ix, iy + 1, iz), lattice_hash_s(ix + 1, iy + 1, iz), ux);
    let nx01 = fx_lerp_s(lattice_hash_s(ix, iy, iz + 1), lattice_hash_s(ix + 1, iy, iz + 1), ux);
    let nx11 = fx_lerp_s(
        lattice_hash_s(ix, iy + 1, iz + 1),
        lattice_hash_s(ix + 1, iy + 1, iz + 1),
        ux,
    );
    let nxy0 = fx_lerp_s(nx00, nx10, uy);
    let nxy1 = fx_lerp_s(nx01, nx11, uy);
    fx_lerp_s(nxy0, nxy1, uz)
}

/// The point p scaled by one frequency.
pub open spec fn scaled_point_s(p: Vec3s, freq: int) -> Vec3s {
    Vec3s { x: fx_mul_s(p.x, freq), y: fx_mul_s(p.y, freq), z: fx_mul_s(p.z, freq) }
}

/// The fractal sum from one octave state down: each octave adds the noise
/// sample weighted by the amplitude, then halves the amplitude and doubles
/// the frequency.
pub open spec fn fbm_from_s(p: Vec3s, k: int, amp: int, freq: int, acc: int) -> int
    decreases k,
{
    if k <= 0 {
        acc
    } else {
        fbm_from_s(
            p,
            k - 1,
            fx_mul_s(amp, FX_HALF as int),
            fx_add_s(freq, freq),
            fx_add_s(acc, fx_mul_s(noise3d_s(scaled_point_s(p, freq)), amp)),
        )
    }
}

/// Fractal brownian motion: the octave sum from amplitude one half and
/// frequency one.
pub open spec fn fbm_s(p: Vec3s, octaves: int) -> int {
    fbm_from_s(p, octaves, FX_HALF as int, FX_ONE as int, 0)
}

/// The turbulence sum from one octave state down: as the fractal sum, with
/// each sample taken by magnitude.
pub open spec fn turbulence_from_s(p: Vec3s, k: int, amp: int, freq: int, acc: int) -> int
    decreases k,
{
    if k <= 0 {
        acc
    } else {
        turbulence_from_s(
            p,
            k - 1,
            fx_mul_s(amp, FX_HALF as int),
            fx_add_s(freq, freq),
            fx_add_s(acc, fx_mul_s(fx_abs_s(noise3d_s(scaled_point_s(p, freq))), amp)),
        )
    }
}

/// Turbulence: the magnitude octave sum from amplitude one half and
/// frequency one.
pub open spec fn turbulence_s(p: Vec3s, octaves: int) -> int {
    turbulence_from_s(p, octaves, FX_HALF as int, FX_ONE as int, 0)
}

/// The pseudo-random scalar of one input, in [0, FX_ONE).
pub fn hash(n: i64) -> (r: i64)
    ensures
        r == hash_s(n as int),
        0 <= r < FX_ONE,
{
    fx_fract(fx_mul(fx_sin(fx_mul(n, FX_HASH_FREQ)), FX_HASH_AMP))
}

/// The hash of one lattice corner.
fn lattice_hash(ix: i64, iy: i64, iz: i64) -> (r: i64)
    requires
        mag_s(ix as int) <= 0x1000000000000,
        mag_s(iy as int) <= 0x1000000000000,
        mag_s(iz as int) <= 0x1000000000000,
    ensures
        r == lattice_hash_s(ix as int, iy as int, iz as int),
        0 <= r < FX_ONE,
{
    let n: i64 = ix + 57 * iy + 113 * iz;
    hash(fx_from_units(n))
}

/// The smoothstep easing of a fractional coordinate stays a valid
/// interpolation weight.
proof fn lemma_smooth_unit(f: int)
    requires
        0 <= f < FX_ONE,
    ensures
        0 <= smooth_s(f) <= FX_ONE,
{
    let one = FX_ONE as int;
    let ff = f * f;
    let t1 = fx_mul_s(f, f);
    let t2 = fx_sub_s(FX_THREE as int, fx_add_s(f, f));
    assert(0 <= ff <= one * one) by (nonlinear_arith)
        requires
            0 <= f < one,
            one == 65536,
            ff == f * f,
    ;
    lemma_div_is_ordered(0, ff, one);
    lemma_div_is_ordered(ff, one * one, one);
    lemma_div_multiples_vanish(one, one);
    assert(t1 == ff / one);
    assert(t2 == 3 * one - 2 * f);
    // t1 * one <= f * f, from the floor in the division
    vstd::arithmetic::div_mod::lemma_fundamental_div_mod(ff, one);
    vstd::arithmetic::div_mod::lemma_mod_division_less_than_divisor(ff, one);
    assert(t1 * one <= ff) by (nonlinear_arith)
        requires
            ff == one * t1 + ff % one,
            0 <= ff % one,
            one == 65536,
    ;
    // the cubic bound: f*f*(3*one - 2*f) <= one^3
    assert(ff * t2 <= one * one * one) by (nonlinear_arith)
        requires
            0 <= f < one,
            one == 65536,
            ff == f * f,
            t2 == 3 * one - 2 * f,
    ;
    assert(t1 * t2 * one <= one * one * one) by (nonlinear_arith)
        requires
            t1 * one <= ff,
            ff * t2 <= one * one * one,
            0 <= t2,
            one == 65536,
            0 <= t1,
    ;
    assert(t1 * t2 <= one * one) by (nonlinear_arith)
        requires
            t1 * t2 * one <= one * one * one,
            one == 65536,
    ;
    assert(0 <= t1 * t2) by (nonlinear_arith)
        requires
            0 <= t1,
            0 <= t2,
    ;
    lemma_div_is_ordered(0, t1 * t2, one);
    lemma_div_is_ordered(t1 * t2, one * one, one);
}

/// The smoothstep easing, as an interpolation weight in [0, FX_ONE].
fn smooth(f: i64) -> (r: i64)
    requires
        0 <= f < FX_ONE,
    ensures
        r == smooth_s(f as int),
        0 <= r <= FX_ONE,
{
    proof {
        lemma_smooth_unit(f as int);
    }
    fx_mul(fx_mul(f, f), fx_sub(FX_THREE, fx_add(f, f)))
}

/// Value noise at a point, in [0, FX_ONE), a pure function of the
/// coordinates alone.
pub fn noise3d(p: &Vec3) -> (r: i64)
    ensures
        r == noise3d_s(p@),
        0 <= r < FX_ONE,
{
    let ix = fx_floor_units(p.x);
    let iy = fx_floor_units(p.y);
    let iz = fx_floor_units(p.z);
    let ux = smooth(fx_fract(p.x));
    let uy = smooth(fx_fract(p.y));
    let uz = smooth(fx_fract(p.z));

    let n000 = lattice_hash(ix, iy, iz);
    let n100 = lattice_hash(ix + 1, iy, iz);
    let n010 = lattice_hash(ix, iy + 1, iz);
    let n110 = lattice_hash(ix + 1, iy + 1, iz);
    let n001 = lattice_hash(ix, iy, iz + 1);
    let n101 = lattice_hash(ix + 1, iy, iz + 1);
    let n011 = lattice_hash(ix, iy + 1, iz + 1);
    let n111 = lattice_hash(ix + 1, iy + 1, iz + 1);

    proof {
        lemma_lerp_between(n000 as int, n100 as int, ux as int);
        lemma_lerp_between(n010 as int, n110 as int, ux as int);
        lemma_lerp_between(n001 as int, n101 as int, ux as int);
        lemma_lerp_between(n011 as int, n111 as int, ux as int);
    }
    let nx00 = crate::fixed::fx_lerp(n000, n100, ux);
    let nx10 = crate::fixed::fx_lerp(n010, n110, ux);
    let nx01 = crate::fixed::fx_lerp(n001, n101, ux);
    let nx11 = crate::fixed::fx_lerp(n011, n111, ux);
    proof {
        lemma_lerp_between(nx00 as int, nx10 as int, uy as int);
        lemma_lerp_between(nx01 as int, nx11 as int, uy as int);
    }
    let nxy0 = crate::fixed::fx_lerp(nx00, nx10, uy);
    let nxy1 = crate::fixed::fx_lerp(nx01, nx11, uy);
    proof {
        lemma_lerp_between(nxy0 as int, nxy1 as int, uz as int);
    }
    crate::fixed::fx_lerp(nxy0, nxy1, uz)
}

/// One octave term never reaches the amplitude that weighted it.
proof fn lemma_octave_term(sample: int, amp: int)
    requires
        0 <= sample < FX_ONE,
        0 <= amp <= FX_HALF,
    ensures
        0 <= fx_mul_s(sample, amp),
        amp >= 1 ==> fx_mul_s(sample, amp) <= amp - 1,
        amp == 0 ==> fx_mul_s(sample, amp) == 0,
{
    let one = FX_ONE as int;
    if amp == 0 {
        assert(sample * 0 == 0) by (nonlinear_arith);
        lemma_div_multiples_vanish(0, one);
    } else {
        assert(0 <= sample * amp <= (one - 1) * amp) by (nonlinear_arith)
            requires
                0 <= sample <= one - 1,
                1 <= amp,
        ;
        assert((one - 1) * amp == one * (amp - 1) + (one - amp)) by (nonlinear_arith);
        lemma_fundamental_div_mod_converse((one - 1) * amp, one, amp - 1, one - amp);
        lemma_div_is_ordered(0, sample * amp, one);
        lemma_div_is_ordered(sample * amp, (one - 1) * amp, one);
    }
}

/// Halving the amplitude by the fixed-point product with one half is the
/// integer halving.
proof fn lemma_amp_halves(amp: int)
    requires
        0 <= amp <= FX_HALF,
    ensures
        fx_mul_s(amp, FX_HALF as int) == amp / 2,
        0 <= amp / 2,
        2 * (amp / 2) <= amp,
{
    let one = FX_ONE as int;
    let half = FX_HALF as int;
    assert(amp * half == half * amp) by (nonlinear_arith);
    vstd::arithmetic::div_mod::lemma_div_denominator(half * amp, half, 2);
    lemma_div_multiples_vanish(amp, half);
    assert(half * 2 == one);
    lemma_div_is_ordered(0, amp, 2);
    vstd::arithmetic::div_mod::lemma_fundamental_div_mod(amp, 2);
    vstd::arithmetic::div_mod::lemma_mod_division_less_than_divisor(amp, 2);
}

/// Fractal brownian motion over the given octave count, in [0, FX_ONE),
/// a pure function of the point and count alone.
#[verifier::rlimit(50)]
pub fn fbm(p: &Vec3, octaves: i32) -> (r: i64)
    ensures
        r == fbm_s(p@, octaves as int),
        0 <= r < FX_ONE,
{
    let mut value: i64 = 0;
    let mut amplitude: i64 = FX_HALF;
    let mut frequency: i64 = FX_ONE;
    let mut i: i32 = 0;
    while i < octaves
        invariant
            0 <= i,
            i <= fx_max_s(octaves as int, 0),
            octaves > 0 ==> i <= octaves,
            0 <= amplitude <= FX_HALF,
            -FX_SAT <= frequency <= FX_SAT,
            0 <= value <= 65535,
            value + 2 * amplitude <= 65536,
            fbm_from_s(p@, octaves - i, amplitude as int, frequency as int, value as int)
                == fbm_s(p@, octaves as int),
        decreases octaves - i,
    {
        let sp = Vec3 {
            x: fx_mul(p.x, frequency),
            y: fx_mul(p.y, frequency),
            z: fx_mul(p.z, frequency),
        };
        let sample = noise3d(&sp);
        proof {
            lemma_octave_term(sample as int, amplitude as int);
        }
        let term = fx_mul(sample, amplitude);
        value = fx_add(value, term);
        proof {
            lemma_amp_halves(amplitude as int);
        }
        amplitude = fx_mul(amplitude, FX_HALF);
        frequency = fx_add(frequency, frequency);
        i = i + 1;
    }
    value
}

/// Turbulence over the given octave count, in [0, FX_ONE), a pure
/// function of the point and count alone.
#[verifier::rlimit(50)]
pub fn turbulence(p: &Vec3, octaves: i32) -> (r: i64)
    ensures
        r == turbulence_s(p@, octaves as int),
        0 <= r < FX_ONE,
{
    let mut value: i64 = 0;
    let mut amplitude: i64 = FX_HALF;
    let mut frequency: i64 = FX_ONE;
    let mut i: i32 = 0;
    while i < octaves
        invariant
            0 <= i,
            i <= fx_max_s(octaves as int, 0),
            octaves > 0 ==> i <= octaves,
            0 <= amplitude <= FX_HALF,
            -FX_SAT <= frequency <= FX_SAT,
            0 <= value <= 65535,
            value + 2 * amplitude <= 65536,
            turbulence_from_s(p@, octaves - i, amplitude as int, frequency as int, value as int)
                == turbulence_s(p@, octaves as int),
        decreases octaves - i,
    {
        let sp = Vec3 {
            x: fx_mul(p.x, frequency),
            y: fx_mul(p.y, frequency),
            z: fx_mul(p.z, frequency),
        };
        let sample = fx_abs(noise3d(&sp));
        proof {
            lemma_octave_term(sample as int, amplitude as int);
        }
        let term = fx_mul(sample, amplitude);
        value = fx_add(value, term);
        proof {
            lemma_amp_halves(amplitude as int);
        }
        amplitude = fx_mul(amplitude, FX_HALF);
        frequency = fx_add(frequency, frequency);
        i = i + 1;
    }
    value
}

} // verus!
