//! The vertex stage and the procedural shading library.
//!
//! Every shader is a pure, stateless function from the fragment data and
//! the draw context to a linear color: its result equals a specification
//! function of the arguments alone, so repeated calls with identical
//! inputs yield identical colors. The final dispatcher clamps every
//! channel into [0, FX_ONE].

use vstd::prelude::*;
use crate::fixed::{
    fx_add, fx_sub, fx_mul, fx_div, fx_clamp, fx_max, fx_min, FX_ONE, FX_HALF, FX_SAT,
    fx_add_s, fx_sub_s, fx_mul_s, fx_div_s, fx_clamp_s, fx_max_s, fx_min_s, fx_lerp_s,
    fx_lerp, fx_abs, fx_abs_s, fx_sqrt, fx_sqrt_s, lemma_lerp_between,
};
use crate::trig::{
    fx_sin, fx_cos, fx_atan2, fx_pow32, fx_sin_s, fx_cos_s, fx_atan2_s, fx_pow32_s,
};
use crate::vec3::{
    Vec3, Vec3s, Vec4, Vec4s, in_band, v3_add_s, v3_sub_s, v3_scale_s, v3_dot_s,
    v3_normalize_s,
};
use crate::matrix::{Mat4, Mat4s, mats_apply, multiply_matrix_vector4};
use crate::geometry::{Vertex, Vertexs, Uniforms, Uniformss, Fragment, Fragments};
use crate::noise::{noise3d, fbm, turbulence, noise3d_s, fbm_s, turbulence_s};

verus! {

/// Every component lies in the half band, where interpolation is exact.
pub open spec fn in_half_band(a: Vec3s) -> bool {
    &&& -(FX_SAT as int) / 2 <= a.x <= (FX_SAT as int) / 2
    &&& -(FX_SAT as int) / 2 <= a.y <= (FX_SAT as int) / 2
    &&& -(FX_SAT as int) / 2 <= a.z <= (FX_SAT as int) / 2
}

/// Per-channel linear interpolation between two colors, the weight
/// clamped into [0, FX_ONE].
pub open spec fn lerp_color_s(a: Vec3s, b: Vec3s, t: int) -> Vec3s {
    let tc = fx_clamp_s(t, 0, FX_ONE as int);
    Vec3s {
        x: fx_lerp_s(a.x, b.x, tc),
        y: fx_lerp_s(a.y, b.y, tc),
        z: fx_lerp_s(a.z, b.z, tc),
    }
}

/// Per-channel linear interpolation between two colors.
pub fn lerp_color(a: &Vec3, b: &Vec3, t: i64) -> (r: Vec3)
    ensures
        r@ == lerp_color_s(a@, b@, t as int),
        in_band(r@),
{
    let tc = fx_clamp(t, 0, FX_ONE);
    Vec3 { x: fx_lerp(a.x, b.x, tc), y: fx_lerp(a.y, b.y, tc), z: fx_lerp(a.z, b.z, tc) }
}

/// Interpolation between colors in the half band returns the first color
/// at weight zero, the second at weight one, and otherwise stays on the
/// per-channel segment between them.
pub proof fn lemma_lerp_color_endpoints(a: Vec3s, b: Vec3s, t: int)
    requires
        in_half_band(a),
        in_half_band(b),
    ensures
        t <= 0 ==> lerp_color_s(a, b, t) == a,
        t >= FX_ONE ==> lerp_color_s(a, b, t) == b,
        fx_min_s(a.x, b.x) <= lerp_color_s(a, b, t).x <= fx_max_s(a.x, b.x),
        fx_min_s(a.y, b.y) <= lerp_color_s(a, b, t).y <= fx_max_s(a.y, b.y),
        fx_min_s(a.z, b.z) <= lerp_color_s(a, b, t).z <= fx_max_s(a.z, b.z),
{
    let tc = fx_clamp_s(t, 0, FX_ONE as int);
    lemma_lerp_between(a.x, b.x, tc);
    lemma_lerp_between(a.y, b.y, tc);
    lemma_lerp_between(a.z, b.z, tc);
}

/// The Lambertian diffuse and Blinn-Phong specular terms of one fragment:
/// all three directions are normalized, the diffuse term is the clamped
/// inner product with the light direction, and the specular term is the
/// 32nd power of the clamped inner product with the half vector.
pub open spec fn lighting_s(normal: Vec3s, light_dir: Vec3s, view_dir: Vec3s) -> (int, int) {
    let n = v3_normalize_s(normal);
    let l = v3_normalize_s(light_dir);
    let v = v3_normalize_s(view_dir);
    let diffuse = fx_max_s(v3_dot_s(n, l), 0);
    let h = Vec3s {
        x: fx_mul_s(fx_add_s(l.x, v.x), FX_HALF as int),
        y: fx_mul_s(fx_add_s(l.y, v.y), FX_HALF as int),
        z: fx_mul_s(fx_add_s(l.z, v.z), FX_HALF as int),
    };
    let hn = v3_normalize_s(h);
    let specular = fx_pow32_s(fx_max_s(v3_dot_s(n, hn), 0));
    (diffuse, specular)
}

/// The diffuse and specular lighting terms of one fragment.
pub fn calculate_lighting(normal: &Vec3, light_dir: &Vec3, view_dir: &Vec3) -> (r: (i64, i64))
    ensures
        r.0 == lighting_s(normal@, light_dir@, view_dir@).0,
        r.1 == lighting_s(normal@, light_dir@, view_dir@).1,
        0 <= r.0 <= FX_SAT,
        0 <= r.1 <= FX_ONE,
{
    let n = normal.vnormalize();
    let l = light_dir.vnormalize();
    let v = view_dir.vnormalize();
    let diffuse = fx_max(n.vdot(&l), 0);
    let h = Vec3 {
        x: fx_mul(fx_add(l.x, v.x), FX_HALF),
        y: fx_mul(fx_add(l.y, v.y), FX_HALF),
        z: fx_mul(fx_add(l.z, v.z), FX_HALF),
    };
    let hn = h.vnormalize();
    let specular = fx_pow32(fx_max(n.vdot(&hn), 0));
    (diffuse, specular)
}

/// A position rotated about the y axis by the angle time * speed.
pub open spec fn rotate_position_s(pos: Vec3s, time: int, speed: int) -> Vec3s {
    let angle = fx_mul_s(time, speed);
    let c = fx_cos_s(angle);
    let s = fx_sin_s(angle);
    Vec3s {
        x: fx_sub_s(fx_mul_s(pos.x, c), fx_mul_s(pos.z, s)),
        y: pos.y,
        z: fx_add_s(fx_mul_s(pos.x, s), fx_mul_s(pos.z, c)),
    }
}

/// A position rotated about the y axis by the angle time * speed.
pub fn rotate_position(pos: &Vec3, time: i64, speed: i64) -> (r: Vec3)
    ensures
        r@ == rotate_position_s(pos@, time as int, speed as int),
{
    let angle = fx_mul(time, speed);
    let c = fx_cos(angle);
    let s = fx_sin(angle);
    Vec3 {
        x: fx_sub(fx_mul(pos.x, c), fx_mul(pos.z, s)),
        y: pos.y,
        z: fx_add(fx_mul(pos.x, s), fx_mul(pos.z, c)),
    }
}

/// The rocky surface: fractal base terrain, turbulence craters, mountain
/// elevation and fine detail, blended over an earthen palette and lit with
/// a weak specular term.
pub open spec fn rocky_planet_shader_s(pos: Vec3s, time: int, normal: Vec3s) -> Vec3s {
    let rp = rotate_position_s(pos, time, 13107);
    let base_noise = fbm_s(rp, 5);
    let crater_noise = turbulence_s(
        Vec3s { x: fx_mul_s(rp.x, 524288), y: fx_mul_s(rp.y, 524288), z: fx_mul_s(rp.z, 524288) },
        3,
    );
    let mountain_noise = fbm_s(
        Vec3s { x: fx_mul_s(rp.x, 196608), y: fx_mul_s(rp.y, 196608), z: fx_mul_s(rp.z, 196608) },
        4,
    );
    let detail_noise = noise3d_s(
        Vec3s { x: fx_mul_s(rp.x, 786432), y: fx_mul_s(rp.y, 786432), z: fx_mul_s(rp.z, 786432) },
    );
    let deep_color = Vec3s { x: 19661, y: 9830, z: 6554 };
    let mid_color = Vec3s { x: 32768, y: 19661, z: 13107 };
    let high_color = Vec3s { x: 39322, y: 29491, z: 19661 };
    let peak_color = Vec3s { x: 45875, y: 39322, z: 32768 };
    let elevation = fx_mul_s(fx_add_s(base_noise, mountain_noise), FX_HALF as int);
    let crater_factor = fx_mul_s(fx_max_s(fx_sub_s(crater_noise, 39322), 0), 131072);
    let c0 = if elevation > 45875 {
        lerp_color_s(high_color, peak_color, fx_mul_s(fx_sub_s(elevation, 45875), 218235))
    } else if elevation > 26214 {
        lerp_color_s(mid_color, high_color, fx_mul_s(fx_sub_s(elevation, 26214), 218235))
    } else {
        lerp_color_s(deep_color, mid_color, fx_mul_s(elevation, 163840))
    };
    let c1 = lerp_color_s(
        c0,
        Vec3s { x: 13107, y: 6554, z: 3277 },
        fx_mul_s(crater_factor, FX_HALF as int),
    );
    let c2 = v3_scale_s(c1, fx_add_s(58982, fx_mul_s(detail_noise, 13107)));
    let light_dir = Vec3s { x: 65536, y: 32768, z: 65536 };
    let view_dir = Vec3s { x: 0, y: 0, z: 65536 };
    let lit = lighting_s(normal, light_dir, view_dir);
    let sc = fx_mul_s(lit.1, 6554);
    v3_add_s(
        v3_scale_s(c2, fx_add_s(9830, fx_mul_s(lit.0, 52429))),
        Vec3s { x: sc, y: sc, z: sc },
    )
}

/// The rocky surface shader.
pub fn rocky_planet_shader(pos: &Vec3, time: i64, normal: &Vec3) -> (r: Vec3)
    ensures
        r@ == rocky_planet_shader_s(pos@, time as int, normal@),
{
    let rp = rotate_position(pos, time, 13107);
    let base_noise = fbm(&rp, 5);
    let crater_noise = turbulence(
        &Vec3 { x: fx_mul(rp.x, 524288), y: fx_mul(rp.y, 524288), z: fx_mul(rp.z, 524288) },
        3,
    );
    let mountain_noise = fbm(
        &Vec3 { x: fx_mul(rp.x, 196608), y: fx_mul(rp.y, 196608), z: fx_mul(rp.z, 196608) },
        4,
    );
    let detail_noise = noise3d(
        &Vec3 { x: fx_mul(rp.x, 786432), y: fx_mul(rp.y, 786432), z: fx_mul(rp.z, 786432) },
    );
    let deep_color = Vec3 { x: 19661, y: 9830, z: 6554 };
    let mid_color = Vec3 { x: 32768, y: 19661, z: 13107 };
    let high_color = Vec3 { x: 39322, y: 29491, z: 19661 };
    let peak_color = Vec3 { x: 45875, y: 39322, z: 32768 };
    let elevation = fx_mul(fx_add(base_noise, mountain_noise), FX_HALF);
    let crater_factor = fx_mul(fx_max(fx_sub(crater_noise, 39322), 0), 131072);
    let c0 = if elevation > 45875 {
        lerp_color(&high_color, &peak_color, fx_mul(fx_sub(elevation, 45875), 218235))
    } else if elevation > 26214 {
        lerp_color(&mid_color, &high_color, fx_mul(fx_sub(elevation, 26214), 218235))
    } else {
        lerp_color(&deep_color, &mid_color, fx_mul(elevation, 163840))
    };
    let c1 = lerp_color(&c0, &Vec3 { x: 13107, y: 6554, z: 3277 }, fx_mul(crater_factor, FX_HALF));
    let c2 = c1.vscale(fx_add(58982, fx_mul(detail_noise, 13107)));
    let light_dir = Vec3 { x: 65536, y: 32768, z: 65536 };
    let view_dir = Vec3 { x: 0, y: 0, z: 65536 };
    let lit = calculate_lighting(normal, &light_dir, &view_dir);
    let sc = fx_mul(lit.1, 6554);
    c2.vscale(fx_add(9830, fx_mul(lit.0, 52429))).vadd(&Vec3 { x: sc, y: sc, z: sc })
}

/// The gas giant surface: latitude bands, atmospheric turbulence, one
/// large storm and high clouds, under soft diffuse lighting.
pub open spec fn gas_giant_shader_s(pos: Vec3s, time: int, normal: Vec3s) -> Vec3s {
    let rp = rotate_position_s(pos, time, 52429);
    let lat = rp.y;
    let lon = fx_atan2_s(rp.x, rp.z);
    let band_pattern = fx_sin_s(fx_add_s(fx_mul_s(lat, 524288), fx_mul_s(time, 19661)));
    let turbulence_val = fbm_s(
        Vec3s { x: fx_mul_s(lon, 262144), y: fx_mul_s(lat, 131072), z: fx_mul_s(time, 6554) },
        4,
    );
    let dxs = fx_sub_s(rp.x, 19661);
    let dys = fx_sub_s(rp.y, -13107);
    let dzs = rp.z;
    let dist_to_storm = fx_sqrt_s(
        fx_add_s(fx_add_s(fx_mul_s(dxs, dxs), fx_mul_s(dys, dys)), fx_mul_s(dzs, dzs)),
    );
    let storm_factor = fx_max_s(
        fx_sub_s(65536, fx_min_s(fx_div_s(dist_to_storm, 26214), 65536)),
        0,
    );
    let storm_swirl = fx_mul_s(
        fx_sin_s(fx_add_s(fx_add_s(fx_mul_s(lon, 393216), fx_mul_s(turbulence_val, 196608)), time)),
        storm_factor,
    );
    let cloud_noise = noise3d_s(
        Vec3s { x: fx_mul_s(lon, 1048576), y: fx_mul_s(lat, 786432), z: fx_mul_s(time, 3277) },
    );
    let base_cream = Vec3s { x: 58982, y: 55706, z: 45875 };
    let dark_band = Vec3s { x: 39322, y: 29491, z: 19661 };
    let orange_band = Vec3s { x: 58982, y: 39322, z: 19661 };
    let storm_red = Vec3s { x: 52429, y: 19661, z: 13107 };
    let white_cloud = Vec3s { x: 62259, y: 62259, z: 62259 };
    let band_mix = fx_mul_s(
        fx_add_s(fx_add_s(band_pattern, fx_mul_s(turbulence_val, FX_HALF as int)), 65536),
        FX_HALF as int,
    );
    let c0 = if band_mix > 42598 {
        lerp_color_s(base_cream, orange_band, fx_mul_s(fx_sub_s(band_mix, 42598), 187433))
    } else if band_mix > 22938 {
        base_cream
    } else {
        lerp_color_s(dark_band, base_cream, fx_mul_s(band_mix, 187433))
    };
    let c1 = lerp_color_s(
        c0,
        storm_red,
        fx_mul_s(storm_factor, fx_add_s(39322, fx_mul_s(storm_swirl, 13107))),
    );
    let ch = fx_add_s(fx_mul_s(cloud_noise, FX_HALF as int), FX_HALF as int);
    let cloud_factor = fx_mul_s(fx_mul_s(ch, ch), 26214);
    let c2 = lerp_color_s(c1, white_cloud, cloud_factor);
    let light_dir = Vec3s { x: 65536, y: 19661, z: 65536 };
    let view_dir = Vec3s { x: 0, y: 0, z: 65536 };
    let lit = lighting_s(normal, light_dir, view_dir);
    v3_scale_s(c2, fx_add_s(19661, fx_mul_s(lit.0, 45875)))
}

/// The gas giant surface shader.
pub fn gas_giant_shader(pos: &Vec3, time: i64, normal: &Vec3) -> (r: Vec3)
    ensures
        r@ == gas_giant_shader_s(pos@, time as int, normal@),
{
    let rp = rotate_position(pos, time, 52429);
    let lat = rp.y;
    let lon = fx_atan2(rp.x, rp.z);
    let band_pattern = fx_sin(fx_add(fx_mul(lat, 524288), fx_mul(time, 19661)));
    let turbulence_val = fbm(
        &Vec3 { x: fx_mul(lon, 262144), y: fx_mul(lat, 131072), z: fx_mul(time, 6554) },
        4,
    );
    let dxs = fx_sub(rp.x, 19661);
    let dys = fx_sub(rp.y, -13107);
    let dzs = rp.z;
    let dist_to_storm = fx_sqrt(
        fx_add(fx_add(fx_mul(dxs, dxs), fx_mul(dys, dys)), fx_mul(dzs, dzs)),
    );
    let storm_factor = fx_max(fx_sub(65536, fx_min(fx_div(dist_to_storm, 26214), 65536)), 0);
    let storm_swirl = fx_mul(
        fx_sin(fx_add(fx_add(fx_mul(lon, 393216), fx_mul(turbulence_val, 196608)), time)),
        storm_factor,
    );
    let cloud_noise = noise3d(
        &Vec3 { x: fx_mul(lon, 1048576), y: fx_mul(lat, 786432), z: fx_mul(time, 3277) },
    );
    let base_cream = Vec3 { x: 58982, y: 55706, z: 45875 };
    let dark_band = Vec3 { x: 39322, y: 29491, z: 19661 };
    let orange_band = Vec3 { x: 58982, y: 39322, z: 19661 };
    let storm_red = Vec3 { x: 52429, y: 19661, z: 13107 };
    let white_cloud = Vec3 { x: 62259, y: 62259, z: 62259 };
    let band_mix = fx_mul(
        fx_add(fx_add(band_pattern, fx_mul(turbulence_val, FX_HALF)), 65536),
        FX_HALF,
    );
    let c0 = if band_mix > 42598 {
        lerp_color(&base_cream, &orange_band, fx_mul(fx_sub(band_mix, 42598), 187433))
    } else if band_mix > 22938 {
        base_cream
    } else {
        lerp_color(&dark_band, &base_cream, fx_mul(band_mix, 187433))
    };
    let c1 = lerp_color(
        &c0,
        &storm_red,
        fx_mul(storm_factor, fx_add(39322, fx_mul(storm_swirl, 13107))),
    );
    let ch = fx_add(fx_mul(cloud_noise, FX_HALF), FX_HALF);
    let cloud_factor = fx_mul(fx_mul(ch, ch), 26214);
    let c2 = lerp_color(&c1, &white_cloud, cloud_factor);
    let light_dir = Vec3 { x: 65536, y: 19661, z: 65536 };
    let view_dir = Vec3 { x: 0, y: 0, z: 65536 };
    let lit = calculate_lighting(normal, &light_dir, &view_dir);
    c2.vscale(fx_add(19661, fx_mul(lit.0, 45875)))
}

/// The ocean world surface: land against water by fractal terrain, ocean
/// depth shading, vegetation, polar ice caps and drifting clouds, with a
/// strong specular term over open water.
pub open spec fn ocean_planet_shader_s(pos: Vec3s, time: int, normal: Vec3s) -> Vec3s {
    let rp = rotate_position_s(pos, time, 26214);
    let lat = rp.y;
    let lon = fx_atan2_s(rp.x, rp.z);
    let terrain_noise = fbm_s(rp, 4);
    let is_land = terrain_noise > 22938;
    let ocean_depth = fbm_s(
        Vec3s {
            x: fx_mul_s(rp.x, 262144),
            y: fx_mul_s(rp.y, 262144),
            z: fx_add_s(fx_mul_s(rp.z, 262144), fx_mul_s(time, 6554)),
        },
        3,
    );
    let vegetation = fbm_s(
        Vec3s { x: fx_mul_s(rp.x, 393216), y: fx_mul_s(rp.y, 393216), z: fx_mul_s(rp.z, 393216) },
        3,
    );
    let cloud_coverage = fbm_s(
        Vec3s {
            x: fx_mul_s(lon, 524288),
            y: fx_add_s(fx_mul_s(lat, 393216), fx_mul_s(time, 3277)),
            z: fx_mul_s(time, 1311),
        },
        4,
    );
    let deep_ocean = Vec3s { x: 3277, y: 9830, z: 26214 };
    let shallow_ocean = Vec3s { x: 6554, y: 26214, z: 45875 };
    let beach = Vec3s { x: 52429, y: 49152, z: 39322 };
    let grass = Vec3s { x: 13107, y: 39322, z: 13107 };
    let forest = Vec3s { x: 6554, y: 26214, z: 9830 };
    let ice = Vec3s { x: 58982, y: 62259, z: 65536 };
    let cloud_white = Vec3s { x: 65536, y: 65536, z: 65536 };
    let c0 = if is_land {
        if terrain_noise > 32768 {
            if vegetation > 26214 {
                forest
            } else {
                grass
            }
        } else {
            beach
        }
    } else {
        if ocean_depth > 26214 {
            shallow_ocean
        } else {
            deep_ocean
        }
    };
    let lat_mag = fx_abs_s(lat);
    let c1 = if lat_mag > 42598 {
        let ice_mix = fx_min_s(fx_div_s(fx_sub_s(lat_mag, 42598), 22938), 65536);
        lerp_color_s(c0, ice, ice_mix)
    } else {
        c0
    };
    let cloud_alpha = fx_min_s(fx_mul_s(fx_max_s(fx_sub_s(cloud_coverage, 26214), 0), 131072), 45875);
    let c2 = lerp_color_s(c1, cloud_white, cloud_alpha);
    let light_dir = Vec3s { x: 65536, y: 32768, z: 52429 };
    let view_dir = Vec3s { x: 0, y: 0, z: 65536 };
    let lit = lighting_s(normal, light_dir, view_dir);
    let spec_strength: int = if !is_land {
        26214
    } else {
        3277
    };
    let sc = fx_mul_s(lit.1, spec_strength);
    v3_add_s(
        v3_scale_s(c2, fx_add_s(13107, fx_mul_s(lit.0, 49152))),
        Vec3s { x: sc, y: sc, z: sc },
    )
}

/// The ocean world surface shader.
pub fn ocean_planet_shader(pos: &Vec3, time: i64, normal: &Vec3) -> (r: Vec3)
    ensures
        r@ == ocean_planet_shader_s(pos@, time as int, normal@),
{
    let rp = rotate_position(pos, time, 26214);
    let lat = rp.y;
    let lon = fx_atan2(rp.x, rp.z);
    let terrain_noise = fbm(&rp, 4);
    let is_land = terrain_noise > 22938;
    let ocean_depth = fbm(
        &Vec3 {
            x: fx_mul(rp.x, 262144),
            y: fx_mul(rp.y, 262144),
            z: fx_add(fx_mul(rp.z, 262144), fx_mul(time, 6554)),
        },
        3,
    );
    let vegetation = fbm(
        &Vec3 { x: fx_mul(rp.x, 393216), y: fx_mul(rp.y, 393216), z: fx_mul(rp.z, 393216) },
        3,
    );
    let cloud_coverage = fbm(
        &Vec3 {
            x: fx_mul(lon, 524288),
            y: fx_add(fx_mul(lat, 393216), fx_mul(time, 3277)),
            z: fx_mul(time, 1311),
        },
        4,
    );
    let deep_ocean = Vec3 { x: 3277, y: 9830, z: 26214 };
    let shallow_ocean = Vec3 { x: 6554, y: 26214, z: 45875 };
    let beach = Vec3 { x: 52429, y: 49152, z: 39322 };
    let grass = Vec3 { x: 13107, y: 39322, z: 13107 };
    let forest = Vec3 { x: 6554, y: 26214, z: 9830 };
    let ice = Vec3 { x: 58982, y: 62259, z: 65536 };
    let cloud_white = Vec3 { x: 65536, y: 65536, z: 65536 };
    let c0 = if is_land {
        if terrain_noise > 32768 {
            if vegetation > 26214 {
                forest
            } else {
                grass
            }
        } else {
            beach
        }
    } else {
        if ocean_depth > 26214 {
            shallow_ocean
        } else {
            deep_ocean
        }
    };
    let lat_mag = fx_abs(lat);
    let c1 = if lat_mag > 42598 {
        let ice_mix = fx_min(fx_div(fx_sub(lat_mag, 42598), 22938), 65536);
        lerp_color(&c0, &ice, ice_mix)
    } else {
        c0
    };
    let cloud_alpha = fx_min(fx_mul(fx_max(fx_sub(cloud_coverage, 26214), 0), 131072), 45875);
    let c2 = lerp_color(&c1, &cloud_white, cloud_alpha);
    let light_dir = Vec3 { x: 65536, y: 32768, z: 52429 };
    let view_dir = Vec3 { x: 0, y: 0, z: 65536 };
    let lit = calculate_lighting(normal, &light_dir, &view_dir);
    let spec_strength: i64 = if !is_land {
        26214
    } else {
        3277
    };
    let sc = fx_mul(lit.1, spec_strength);
    c2.vscale(fx_add(13107, fx_mul(lit.0, 49152))).vadd(&Vec3 { x: sc, y: sc, z: sc })
}

/// The volcanic surface: an active lava network pulsing with time,
/// localized eruptions, glowing cracks, and a self-illumination term added
/// to the lighting.
pub open spec fn volcanic_planet_shader_s(pos: Vec3s, time: int, normal: Vec3s) -> Vec3s {
    let rp = rotate_position_s(pos, time, 9830);
    let lava_veins = turbulence_s(
        Vec3s {
            x: fx_mul_s(rp.x, 393216),
            y: fx_mul_s(rp.y, 393216),
            z: fx_add_s(fx_mul_s(rp.z, 393216), fx_mul_s(time, 32768)),
        },
        4,
    );
    let pulse = fx_add_s(fx_mul_s(fx_sin_s(fx_mul_s(time, 131072)), FX_HALF as int), FX_HALF as int);
    let activity = fx_mul_s(lava_veins, pulse);
    let eruption_noise = noise3d_s(
        Vec3s {
            x: fx_mul_s(rp.x, 196608),
            y: fx_add_s(fx_mul_s(rp.y, 196608), fx_mul_s(time, 196608)),
            z: fx_mul_s(rp.z, 196608),
        },
    );
    let cracks = turbulence_s(
        Vec3s { x: fx_mul_s(rp.x, 655360), y: fx_mul_s(rp.y, 655360), z: fx_mul_s(rp.z, 655360) },
        2,
    );
    let black_rock = Vec3s { x: 6554, y: 3277, z: 3277 };
    let cooling_lava = Vec3s { x: 26214, y: 6554, z: 3277 };
    let hot_lava = Vec3s { x: 58982, y: 19661, z: 6554 };
    let white_hot = Vec3s { x: 65536, y: 58982, z: 39322 };
    let c0 = if activity > 49152 {
        lerp_color_s(hot_lava, white_hot, fx_mul_s(fx_sub_s(activity, 49152), 262144))
    } else if activity > 32768 {
        lerp_color_s(cooling_lava, hot_lava, fx_mul_s(fx_sub_s(activity, 32768), 262144))
    } else if activity > 19661 {
        lerp_color_s(black_rock, cooling_lava, fx_mul_s(fx_sub_s(activity, 19661), 327680))
    } else {
        black_rock
    };
    let c1 = if cracks > 45875 {
        let crack_glow = fx_mul_s(fx_sub_s(cracks, 45875), 218235);
        lerp_color_s(c0, Vec3s { x: 52429, y: 13107, z: 3277 }, fx_mul_s(crack_glow, FX_HALF as int))
    } else {
        c0
    };
    let c2 = if eruption_noise > 52429 {
        let erupt_intensity = fx_mul_s(fx_sub_s(eruption_noise, 52429), 327680);
        lerp_color_s(c1, white_hot, fx_mul_s(erupt_intensity, pulse))
    } else {
        c1
    };
    let light_dir = Vec3s { x: 65536, y: 32768, z: 65536 };
    let view_dir = Vec3s { x: 0, y: 0, z: 65536 };
    let lit = lighting_s(normal, light_dir, view_dir);
    let self_illum = fx_mul_s(activity, FX_HALF as int);
    v3_scale_s(c2, fx_add_s(fx_add_s(6554, fx_mul_s(lit.0, 26214)), self_illum))
}

/// The volcanic surface shader.
pub fn volcanic_planet_shader(pos: &Vec3, time: i64, normal: &Vec3) -> (r: Vec3)
    ensures
        r@ == volcanic_planet_shader_s(pos@, time as int, normal@),
{
    let rp = rotate_position(pos, time, 9830);
    let lava_veins = turbulence(
        &Vec3 {
            x: fx_mul(rp.x, 393216),
            y: fx_mul(rp.y, 393216),
            z: fx_add(fx_mul(rp.z, 393216), fx_mul(time, 32768)),
        },
        4,
    );
    let pulse = fx_add(fx_mul(fx_sin(fx_mul(time, 131072)), FX_HALF), FX_HALF);
    let activity = fx_mul(lava_veins, pulse);
    let eruption_noise = noise3d(
        &Vec3 {
            x: fx_mul(rp.x, 196608),
            y: fx_add(fx_mul(rp.y, 196608), fx_mul(time, 196608)),
            z: fx_mul(rp.z, 196608),
        },
    );
    let cracks = turbulence(
        &Vec3 { x: fx_mul(rp.x, 655360), y: fx_mul(rp.y, 655360), z: fx_mul(rp.z, 655360) },
        2,
    );
    let black_rock = Vec3 { x: 6554, y: 3277, z: 3277 };
    let cooling_lava = Vec3 { x: 26214, y: 6554, z: 3277 };
    let hot_lava = Vec3 { x: 58982, y: 19661, z: 6554 };
    let white_hot = Vec3 { x: 65536, y: 58982, z: 39322 };
    let c0 = if activity > 49152 {
        lerp_color(&hot_lava, &white_hot, fx_mul(fx_sub(activity, 49152), 262144))
    } else if activity > 32768 {
        lerp_color(&cooling_lava, &hot_lava, fx_mul(fx_sub(activity, 32768), 262144))
    } else if activity > 19661 {
        lerp_color(&black_rock, &cooling_lava, fx_mul(fx_sub(activity, 19661), 327680))
    } else {
        black_rock
    };
    let c1 = if cracks > 45875 {
        let crack_glow = fx_mul(fx_sub(cracks, 45875), 218235);
        lerp_color(&c0, &Vec3 { x: 52429, y: 13107, z: 3277 }, fx_mul(crack_glow, FX_HALF))
    } else {
        c0
    };
    let c2 = if eruption_noise > 52429 {
        let erupt_intensity = fx_mul(fx_sub(eruption_noise, 52429), 327680);
        lerp_color(&c1, &white_hot, fx_mul(erupt_intensity, pulse))
    } else {
        c1
    };
    let light_dir = Vec3 { x: 65536, y: 32768, z: 65536 };
    let view_dir = Vec3 { x: 0, y: 0, z: 65536 };
    let lit = calculate_lighting(normal, &light_dir, &view_dir);
    let self_illum = fx_mul(activity, FX_HALF);
    c2.vscale(fx_add(fx_add(6554, fx_mul(lit.0, 26214)), self_illum))
}

/// The crystalline surface: a fractal crystal structure driving an
/// iridescent hue shift, bright internal veins, a strong specular term and
/// a time-driven energy pulse.
pub open spec fn crystal_planet_shader_s(pos: Vec3s, time: int, normal: Vec3s) -> Vec3s {
    let rp = rotate_position_s(pos, time, 39322);
    let crystal_pattern = fbm_s(
        Vec3s { x: fx_mul_s(rp.x, 393216), y: fx_mul_s(rp.y, 393216), z: fx_mul_s(rp.z, 393216) },
        3,
    );
    let hue_shift = fx_add_s(
        fx_mul_s(
            fx_sin_s(fx_add_s(fx_mul_s(crystal_pattern, 655360), fx_mul_s(time, 32768))),
            FX_HALF as int,
        ),
        FX_HALF as int,
    );
    let internal_structure = fbm_s(
        Vec3s { x: fx_mul_s(rp.x, 262144), y: fx_mul_s(rp.y, 262144), z: fx_mul_s(rp.z, 262144) },
        3,
    );
    let energy_pulse = fx_mul_s(
        fx_add_s(fx_mul_s(fx_sin_s(fx_mul_s(time, 98304)), FX_HALF as int), FX_HALF as int),
        19661,
    );
    let crystal_blue = Vec3s { x: 19661, y: 39322, z: 65536 };
    let crystal_purple = Vec3s { x: 45875, y: 19661, z: 65536 };
    let crystal_cyan = Vec3s { x: 13107, y: 58982, z: 58982 };
    let crystal_white = Vec3s { x: 62259, y: 62259, z: 65536 };
    let c0 = if hue_shift > 43254 {
        lerp_color_s(crystal_blue, crystal_cyan, fx_mul_s(fx_sub_s(hue_shift, 43254), 196608))
    } else if hue_shift > 21627 {
        lerp_color_s(crystal_purple, crystal_blue, fx_mul_s(fx_sub_s(hue_shift, 21627), 196608))
    } else {
        lerp_color_s(crystal_cyan, crystal_purple, fx_mul_s(hue_shift, 196608))
    };
    let c1 = if internal_structure > 39322 {
        lerp_color_s(c0, crystal_white, fx_mul_s(fx_sub_s(internal_structure, 39322), 163840))
    } else {
        c0
    };
    let light_dir = Vec3s { x: 65536, y: 32768, z: 65536 };
    let view_dir = Vec3s { x: 0, y: 0, z: 65536 };
    let lit = lighting_s(normal, light_dir, view_dir);
    let sc = fx_mul_s(lit.1, 52429);
    v3_add_s(
        v3_add_s(
            v3_scale_s(c1, fx_add_s(19661, fx_mul_s(lit.0, FX_HALF as int))),
            Vec3s { x: sc, y: sc, z: sc },
        ),
        v3_scale_s(c1, energy_pulse),
    )
}

/// The crystalline surface shader.
pub fn crystal_planet_shader(pos: &Vec3, time: i64, normal: &Vec3) -> (r: Vec3)
    ensures
        r@ == crystal_planet_shader_s(pos@, time as int, normal@),
{
    let rp = rotate_position(pos, time, 39322);
    let crystal_pattern = fbm(
        &Vec3 { x: fx_mul(rp.x, 393216), y: fx_mul(rp.y, 393216), z: fx_mul(rp.z, 393216) },
        3,
    );
    let hue_shift = fx_add(
        fx_mul(fx_sin(fx_add(fx_mul(crystal_pattern, 655360), fx_mul(time, 32768))), FX_HALF),
        FX_HALF,
    );
    let internal_structure = fbm(
        &Vec3 { x: fx_mul(rp.x, 262144), y: fx_mul(rp.y, 262144), z: fx_mul(rp.z, 262144) },
        3,
    );
    let energy_pulse = fx_mul(
        fx_add(fx_mul(fx_sin(fx_mul(time, 98304)), FX_HALF), FX_HALF),
        19661,
    );
    let crystal_blue = Vec3 { x: 19661, y: 39322, z: 65536 };
    let crystal_purple = Vec3 { x: 45875, y: 19661, z: 65536 };
    let crystal_cyan = Vec3 { x: 13107, y: 58982, z: 58982 };
    let crystal_white = Vec3 { x: 62259, y: 62259, z: 65536 };
    let c0 = if hue_shift > 43254 {
        lerp_color(&crystal_blue, &crystal_cyan, fx_mul(fx_sub(hue_shift, 43254), 196608))
    } else if hue_shift > 21627 {
        lerp_color(&crystal_purple, &crystal_blue, fx_mul(fx_sub(hue_shift, 21627), 196608))
    } else {
        lerp_color(&crystal_cyan, &crystal_purple, fx_mul(hue_shift, 196608))
    };
    let c1 = if internal_structure > 39322 {
        lerp_color(&c0, &crystal_white, fx_mul(fx_sub(internal_structure, 39322), 163840))
    } else {
        c0
    };
    let light_dir = Vec3 { x: 65536, y: 32768, z: 65536 };
    let view_dir = Vec3 { x: 0, y: 0, z: 65536 };
    let lit = calculate_lighting(normal, &light_dir, &view_dir);
    let sc = fx_mul(lit.1, 52429);
    c1.vscale(fx_add(19661, fx_mul(lit.0, FX_HALF)))
        .vadd(&Vec3 { x: sc, y: sc, z: sc })
        .vadd(&c1.vscale(energy_pulse))
}

/// The ship hull: a stripe pattern over the vertical coordinate, lit with
/// full diffuse and specular terms.
pub open spec fn ship_shader_s(pos: Vec3s, time: int, normal: Vec3s) -> Vec3s {
    let light_dir = Vec3s { x: 65536, y: 65536, z: 65536 };
    let view_dir = Vec3s { x: 0, y: 0, z: 65536 };
    let lit = lighting_s(normal, light_dir, view_dir);
    let base_color = if fx_sin_s(fx_mul_s(pos.y, 655360)) > 0 {
        Vec3s { x: 52429, y: 52429, z: 52429 }
    } else {
        Vec3s { x: 13107, y: 13107, z: 52429 }
    };
    v3_add_s(
        v3_scale_s(base_color, fx_add_s(13107, lit.0)),
        Vec3s { x: lit.1, y: lit.1, z: lit.1 },
    )
}

/// The ship hull shader.
pub fn ship_shader(pos: &Vec3, time: i64, normal: &Vec3) -> (r: Vec3)
    ensures
        r@ == ship_shader_s(pos@, time as int, normal@),
{
    let light_dir = Vec3 { x: 65536, y: 65536, z: 65536 };
    let view_dir = Vec3 { x: 0, y: 0, z: 65536 };
    let lit = calculate_lighting(normal, &light_dir, &view_dir);
    let base_color = if fx_sin(fx_mul(pos.y, 655360)) > 0 {
        Vec3 { x: 52429, y: 52429, z: 52429 }
    } else {
        Vec3 { x: 13107, y: 13107, z: 52429 }
    };
    base_color.vscale(fx_add(13107, lit.0)).vadd(&Vec3 { x: lit.1, y: lit.1, z: lit.1 })
}

/// The color of one fragment before the final clamp: a total dispatch
/// over the material tag, with a neutral gray for unknown tags.
pub open spec fn material_color_s(f: Fragments, u: Uniformss) -> Vec3s {
    if u.planet_type == 0 {
        rocky_planet_shader_s(f.world_position, u.time, f.normal)
    } else if u.planet_type == 1 {
        gas_giant_shader_s(f.world_position, u.time, f.normal)
    } else if u.planet_type == 2 {
        ocean_planet_shader_s(f.world_position, u.time, f.normal)
    } else if u.planet_type == 3 {
        volcanic_planet_shader_s(f.world_position, u.time, f.normal)
    } else if u.planet_type == 4 {
        crystal_planet_shader_s(f.world_position, u.time, f.normal)
    } else if u.planet_type == 10 {
        ship_shader_s(f.world_position, u.time, f.normal)
    } else {
        Vec3s { x: 32768, y: 32768, z: 32768 }
    }
}

/// The color of one fragment: the material dispatch, every channel
/// clamped into [0, FX_ONE].
pub open spec fn fragment_shader_s(f: Fragments, u: Uniformss) -> Vec3s {
    let c = material_color_s(f, u);
    Vec3s {
        x: fx_clamp_s(c.x, 0, FX_ONE as int),
        y: fx_clamp_s(c.y, 0, FX_ONE as int),
        z: fx_clamp_s(c.z, 0, FX_ONE as int),
    }
}

/// The per-fragment shading entry point: a total function of the material
/// tag that always produces a color with every channel in [0, FX_ONE];
/// identical inputs always yield the identical color.
pub fn fragment_shader(fragment: &Fragment, uniforms: &Uniforms) -> (r: Vec3)
    ensures
        r@ == fragment_shader_s(fragment@, uniforms@),
        0 <= r.x <= FX_ONE,
        0 <= r.y <= FX_ONE,
        0 <= r.z <= FX_ONE,
{
    let pos = fragment.world_position;
    let time = uniforms.time;
    let planet_type = uniforms.planet_type;
    let normal = fragment.normal;
    let color = match planet_type {
        0 => rocky_planet_shader(&pos, time, &normal),
        1 => gas_giant_shader(&pos, time, &normal),
        2 => ocean_planet_shader(&pos, time, &normal),
        3 => volcanic_planet_shader(&pos, time, &normal),
        4 => crystal_planet_shader(&pos, time, &normal),
        10 => ship_shader(&pos, time, &normal),
        _ => Vec3 { x: 32768, y: 32768, z: 32768 },
    };
    Vec3 {
        x: fx_clamp(color.x, 0, FX_ONE),
        y: fx_clamp(color.y, 0, FX_ONE),
        z: fx_clamp(color.z, 0, FX_ONE),
    }
}

/// A normal taken through the model matrix (directly, with no
/// inverse-transpose correction: exact for rigid and uniform-scale
/// transforms, a documented approximation otherwise) and renormalized.
pub open spec fn transform_normal_s(normal: Vec3s, model_matrix: Mat4s) -> Vec3s {
    let t = mats_apply(model_matrix, Vec4s { x: normal.x, y: normal.y, z: normal.z, w: 0 });
    v3_normalize_s(Vec3s { x: t.x, y: t.y, z: t.z })
}

/// A normal taken through the model matrix and renormalized.
fn transform_normal(normal: &Vec3, model_matrix: &Mat4) -> (r: Vec3)
    ensures
        r@ == transform_normal_s(normal@, model_matrix@),
{
    let n4 = Vec4 { x: normal.x, y: normal.y, z: normal.z, w: 0 };
    let t = multiply_matrix_vector4(model_matrix, &n4);
    Vec3 { x: t.x, y: t.y, z: t.z }.vnormalize()
}

/// The object-space position the vertex stage feeds the matrix pipeline:
/// unchanged for the plain render mode; rebuilt into a thin annulus for
/// the ring mode (azimuth from the horizontal coordinates, radius
/// interpolated by the vertical one); translated along a time-driven
/// inclined circular orbit and scaled down for the moon mode.
pub open spec fn geometry_variant_s(position: Vec3s, u: Uniformss) -> Vec3s {
    if u.render_type == 1 {
        let angle = fx_atan2_s(position.x, position.z);
        let radius = fx_add_s(
            117965,
            fx_mul_s(fx_mul_s(fx_add_s(position.y, 65536), FX_HALF as int), 65536),
        );
        Vec3s {
            x: fx_mul_s(radius, fx_cos_s(angle)),
            y: fx_mul_s(position.z, 3277),
            z: fx_mul_s(radius, fx_sin_s(angle)),
        }
    } else if u.render_type == 2 {
        let moon_orbit_time = fx_mul_s(u.time, 19661);
        let moon_x = fx_mul_s(294912, fx_cos_s(moon_orbit_time));
        let moon_z = fx_mul_s(294912, fx_sin_s(moon_orbit_time));
        let moon_y = fx_mul_s(fx_sin_s(fx_mul_s(moon_orbit_time, 131072)), 13107);
        Vec3s {
            x: fx_add_s(moon_x, fx_mul_s(position.x, 16384)),
            y: fx_add_s(moon_y, fx_mul_s(position.y, 16384)),
            z: fx_add_s(moon_z, fx_mul_s(position.z, 16384)),
        }
    } else {
        position
    }
}

/// The screen-space position of one vertex: the geometry variant, the
/// model, view and projection matrices, the perspective divide (clip
/// coordinates pass through unchanged when w is zero), and the viewport
/// transform.
pub open spec fn transformed_position_s(position: Vec3s, u: Uniformss) -> Vec3s {
    let p = geometry_variant_s(position, u);
    let p4 = Vec4s { x: p.x, y: p.y, z: p.z, w: FX_ONE as int };
    let world = mats_apply(u.model_matrix, p4);
    let view = mats_apply(u.view_matrix, world);
    let clip = mats_apply(u.projection_matrix, view);
    let ndc = if clip.w != 0 {
        Vec3s {
            x: fx_div_s(clip.x, clip.w),
            y: fx_div_s(clip.y, clip.w),
            z: fx_div_s(clip.z, clip.w),
        }
    } else {
        Vec3s { x: clip.x, y: clip.y, z: clip.z }
    };
    let screen = mats_apply(u.viewport_matrix, Vec4s { x: ndc.x, y: ndc.y, z: ndc.z, w: FX_ONE as int });
    Vec3s { x: screen.x, y: screen.y, z: screen.z }
}

/// The vertex stage applied to one vertex.
pub open spec fn vertex_shader_s(v: Vertexs, u: Uniformss) -> Vertexs {
    Vertexs {
        position: v.position,
        normal: v.normal,
        tex_coords: v.tex_coords,
        color: v.color,
        transformed_position: transformed_position_s(v.position, u),
        transformed_normal: transform_normal_s(v.normal, u.model_matrix),
    }
}

/// The vertex stage: map one input vertex to its transformed copy. The
/// object-space attributes pass through unchanged; the screen-space
/// position and the transformed normal are filled in.
pub fn vertex_shader(vertex: &Vertex, uniforms: &Uniforms) -> (r: Vertex)
    ensures
        r@ == vertex_shader_s(vertex@, uniforms@),
{
    let p = if uniforms.render_type == 1 {
        let angle = fx_atan2(vertex.position.x, vertex.position.z);
        let radius = fx_add(
            117965,
            fx_mul(fx_mul(fx_add(vertex.position.y, 65536), FX_HALF), 65536),
        );
        Vec3 {
            x: fx_mul(radius, fx_cos(angle)),
            y: fx_mul(vertex.position.z, 3277),
            z: fx_mul(radius, fx_sin(angle)),
        }
    } else if uniforms.render_type == 2 {
        let moon_orbit_time = fx_mul(uniforms.time, 19661);
        let moon_x = fx_mul(294912, fx_cos(moon_orbit_time));
        let moon_z = fx_mul(294912, fx_sin(moon_orbit_time));
        let moon_y = fx_mul(fx_sin(fx_mul(moon_orbit_time, 131072)), 13107);
        Vec3 {
            x: fx_add(moon_x, fx_mul(vertex.position.x, 16384)),
            y: fx_add(moon_y, fx_mul(vertex.position.y, 16384)),
            z: fx_add(moon_z, fx_mul(vertex.position.z, 16384)),
        }
    } else {
        vertex.position
    };
    let p4 = Vec4 { x: p.x, y: p.y, z: p.z, w: FX_ONE };
    let world_position = multiply_matrix_vector4(&uniforms.model_matrix, &p4);
    let view_position = multiply_matrix_vector4(&uniforms.view_matrix, &world_position);
    let clip_position = multiply_matrix_vector4(&uniforms.projection_matrix, &view_position);
    let ndc = if clip_position.w != 0 {
        Vec3 {
            x: fx_div(clip_position.x, clip_position.w),
            y: fx_div(clip_position.y, clip_position.w),
            z: fx_div(clip_position.z, clip_position.w),
        }
    } else {
        Vec3 { x: clip_position.x, y: clip_position.y, z: clip_position.z }
    };
    let ndc4 = Vec4 { x: ndc.x, y: ndc.y, z: ndc.z, w: FX_ONE };
    let screen_position = multiply_matrix_vector4(&uniforms.viewport_matrix, &ndc4);
    Vertex {
        position: vertex.position,
        normal: vertex.normal,
        tex_coords: vertex.tex_coords,
        color: vertex.color,
        transformed_position: Vec3 {
            x: screen_position.x,
            y: screen_position.y,
            z: screen_position.z,
        },
        transformed_normal: transform_normal(&vertex.normal, &uniforms.model_matrix),
    }
}

/// Kept for callers of the older interface; the material tag travels in
/// the uniforms now, so this changes nothing.
pub fn set_planet_type(planet_type: i32) {
    let _ = planet_type;
}

} // verus!
