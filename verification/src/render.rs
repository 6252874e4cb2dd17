//! The frame orchestrators: one complete vertex, assembly, culling,
//! rasterization, shading and depth-tested-write pass per call.
//!
//! Each pass is pinned exactly: the two surfaces after the call equal a
//! specification fold of depth-tested writes, one per fragment of each
//! kept triangle, over the surfaces before the call. In particular the
//! stored depth at every pixel is non-increasing across a pass, a pixel
//! whose color changed had its depth strictly lowered, and a mesh of
//! fewer than three vertices changes nothing.

use vstd::prelude::*;
use crate::fixed::{
    fx_add, fx_sub, fx_mul, fx_sqrt, fx_floor_units, FX_HALF,
    fx_add_s, fx_sub_s, fx_mul_s, fx_sqrt_s, fx_floor_s,
};
use crate::trig::{fx_sin, fx_sin_s};
use crate::vec3::{Vec3, Vec3s, v3_scale_s};
use crate::geometry::{Vertex, Vertexs, Uniforms, Uniformss, Fragment, Fragments, Light};
use crate::framebuffer::{Framebuffer, Color, point_s};
use crate::shaders::{
    vertex_shader, vertex_shader_s, fragment_shader, fragment_shader_s, lerp_color, lerp_color_s,
    calculate_lighting, lighting_s,
};
use crate::raster::{
    triangle, assemble_triangles, Triangle, COORD_LIMIT, raster_fragments_s, frags_match,
    screen_xy_ok_s, signed_area_s,
};
use vstd::arithmetic::div_mod::{lemma_basic_div_specific_divisor, lemma_fundamental_div_mod};

verus! {

/// The near-plane frustum bound: 0.1 in fixed point.
pub const NEAR_LIMIT: i64 = 6554;

/// The far-plane frustum bound: 200 in fixed point.
pub const FAR_LIMIT: i64 = 13107200;

/// The ring overlay color of one fragment: radial color bands with
/// periodic gaps over the world-space ring radius, under flat lighting of
/// the ring plane's normal.
pub open spec fn ring_fragment_color_s(world_position: Vec3s) -> Vec3s {
    let radius = fx_sqrt_s(
        fx_add_s(
            fx_mul_s(world_position.x, world_position.x),
            fx_mul_s(world_position.z, world_position.z),
        ),
    );
    let band_pattern = fx_add_s(
        fx_mul_s(fx_sin_s(fx_mul_s(radius, 983040)), FX_HALF as int),
        FX_HALF as int,
    );
    let gap = fx_add_s(fx_mul_s(fx_sin_s(fx_mul_s(radius, 1310720)), FX_HALF as int), FX_HALF as int)
        < 13107;
    let color = if gap {
        v3_scale_s(Vec3s { x: 19661, y: 13107, z: 9830 }, FX_HALF as int)
    } else {
        lerp_color_s(
            Vec3s { x: 52429, y: 45875, z: 39322 },
            Vec3s { x: 39322, y: 32768, z: 26214 },
            band_pattern,
        )
    };
    let lit = lighting_s(
        Vec3s { x: 0, y: 65536, z: 0 },
        Vec3s { x: 65536, y: 65536, z: 65536 },
        Vec3s { x: 0, y: 0, z: 65536 },
    );
    v3_scale_s(color, fx_add_s(19661, fx_mul_s(lit.0, 45875)))
}

/// The ring overlay color of one fragment.
pub fn ring_fragment_color(world_position: &Vec3) -> (r: Vec3)
    ensures
        r@ == ring_fragment_color_s(world_position@),
{
    let radius = fx_sqrt(
        fx_add(
            fx_mul(world_position.x, world_position.x),
            fx_mul(world_position.z, world_position.z),
        ),
    );
    let band_pattern = fx_add(fx_mul(fx_sin(fx_mul(radius, 983040)), FX_HALF), FX_HALF);
    let gap = fx_add(fx_mul(fx_sin(fx_mul(radius, 1310720)), FX_HALF), FX_HALF) < 13107;
    let color = if gap {
        Vec3 { x: 19661, y: 13107, z: 9830 }.vscale(FX_HALF)
    } else {
        lerp_color(
            &Vec3 { x: 52429, y: 45875, z: 39322 },
            &Vec3 { x: 39322, y: 32768, z: 26214 },
            band_pattern,
        )
    };
    let lit = calculate_lighting(
        &Vec3 { x: 0, y: 65536, z: 0 },
        &Vec3 { x: 65536, y: 65536, z: 65536 },
        &Vec3 { x: 0, y: 0, z: 65536 },
    );
    color.vscale(fx_add(19661, fx_mul(lit.0, 45875)))
}

/// The moon surface color of one fragment: turbulence-based crater
/// darkening over a gray base, lit with the fragment's own world position
/// as the surface normal.
pub open spec fn moon_fragment_color_s(world_position: Vec3s) -> Vec3s {
    let crater_noise = crate::noise::turbulence_s(
        Vec3s {
            x: fx_mul_s(world_position.x, 524288),
            y: fx_mul_s(world_position.y, 524288),
            z: fx_mul_s(world_position.z, 524288),
        },
        3,
    );
    let base_color = Vec3s { x: 39322, y: 39322, z: 39322 };
    let crater_color = Vec3s { x: 26214, y: 26214, z: 26214 };
    let color = if crater_noise > 45875 {
        lerp_color_s(base_color, crater_color, fx_mul_s(fx_sub_s(crater_noise, 45875), 218235))
    } else {
        base_color
    };
    let lit = lighting_s(
        world_position,
        Vec3s { x: 65536, y: 65536, z: 65536 },
        Vec3s { x: 0, y: 0, z: 65536 },
    );
    v3_scale_s(color, fx_add_s(6554, fx_mul_s(lit.0, 58982)))
}

/// The moon surface color of one fragment.
pub fn moon_fragment_color(world_position: &Vec3) -> (r: Vec3)
    ensures
        r@ == moon_fragment_color_s(world_position@),
{
    let crater_noise = crate::noise::turbulence(
        &Vec3 {
            x: fx_mul(world_position.x, 524288),
            y: fx_mul(world_position.y, 524288),
            z: fx_mul(world_position.z, 524288),
        },
        3,
    );
    let base_color = Vec3 { x: 39322, y: 39322, z: 39322 };
    let crater_color = Vec3 { x: 26214, y: 26214, z: 26214 };
    let color = if crater_noise > 45875 {
        lerp_color(&base_color, &crater_color, fx_mul(fx_sub(crater_noise, 45875), 218235))
    } else {
        base_color
    };
    let lit = calculate_lighting(
        world_position,
        &Vec3 { x: 65536, y: 65536, z: 65536 },
        &Vec3 { x: 0, y: 0, z: 65536 },
    );
    color.vscale(fx_add(6554, fx_mul(lit.0, 58982)))
}

/// The vertex stage over a whole mesh.
fn transform_vertices(vertex_array: &Vec<Vertex>, uniforms: &Uniforms) -> (r: Vec<Vertex>)
    ensures
        r@.len() == vertex_array@.len(),
        forall|k: int|
            0 <= k < r@.len() ==> r@[k]@ == vertex_shader_s(vertex_array@[k]@, uniforms@),
{
    let mut transformed: Vec<Vertex> = Vec::new();
    let n = vertex_array.len();
    let mut j: usize = 0;
    while j < n
        invariant
            n == vertex_array@.len(),
            j <= n,
            transformed@.len() == j,
            forall|k: int|
                0 <= k < j ==> transformed@[k]@ == vertex_shader_s(
                    vertex_array@[k]@,
                    uniforms@,
                ),
        decreases n - j,
    {
        let tv = vertex_shader(&vertex_array[j], uniforms);
        transformed.push(tv);
        j = j + 1;
    }
    transformed
}

/// The triangle passes the conservative frustum reject: not all three
/// screen depths nearer than the near bound, nor all farther than the far
/// bound.
pub open spec fn frustum_pass_s(t0: Vertexs, t1: Vertexs, t2: Vertexs) -> bool {
    let z0 = t0.transformed_position.z;
    let z1 = t1.transformed_position.z;
    let z2 = t2.transformed_position.z;
    !((z0 < NEAR_LIMIT && z1 < NEAR_LIMIT && z2 < NEAR_LIMIT) || (z0 > FAR_LIMIT && z1 > FAR_LIMIT
        && z2 > FAR_LIMIT))
}

/// The standard pass keeps a triangle: it passes the frustum reject, its
/// screen coordinates lie in the guarded band, and it is not back-facing.
pub open spec fn tri_kept_s(t0: Vertexs, t1: Vertexs, t2: Vertexs) -> bool {
    &&& frustum_pass_s(t0, t1, t2)
    &&& screen_xy_ok_s(t0)
    &&& screen_xy_ok_s(t1)
    &&& screen_xy_ok_s(t2)
    &&& signed_area_s(t0.transformed_position, t1.transformed_position, t2.transformed_position)
        >= 0
}

/// The conservative frustum reject of one triangle.
fn frustum_pass(t: &Triangle) -> (r: bool)
    ensures
        r == frustum_pass_s(t.v0@, t.v1@, t.v2@),
{
    let z0 = t.v0.transformed_position.z;
    let z1 = t.v1.transformed_position.z;
    let z2 = t.v2.transformed_position.z;
    !((z0 < NEAR_LIMIT && z1 < NEAR_LIMIT && z2 < NEAR_LIMIT) || (z0 > FAR_LIMIT && z1 > FAR_LIMIT
        && z2 > FAR_LIMIT))
}

/// The screen coordinates of all three vertices lie in the guarded band,
/// so the back-face test's integer cross product stays exact.
fn tri_coords_in_band(t: &Triangle) -> (r: bool)
    ensures
        r == (screen_xy_ok_s(t.v0@) && screen_xy_ok_s(t.v1@) && screen_xy_ok_s(t.v2@)),
{
    let a = &t.v0.transformed_position;
    let b = &t.v1.transformed_position;
    let c = &t.v2.transformed_position;
    a.x >= -COORD_LIMIT && a.x <= COORD_LIMIT && a.y >= -COORD_LIMIT && a.y <= COORD_LIMIT && b.x
        >= -COORD_LIMIT && b.x <= COORD_LIMIT && b.y >= -COORD_LIMIT && b.y <= COORD_LIMIT && c.x
        >= -COORD_LIMIT && c.x <= COORD_LIMIT && c.y >= -COORD_LIMIT && c.y <= COORD_LIMIT
}

/// The z component of the screen-space cross product of the triangle's
/// edge vectors: negative exactly for a back-facing triangle.
pub fn screen_cross_z(t: &Triangle) -> (r: i128)
    requires
        screen_xy_ok_s(t.v0@),
        screen_xy_ok_s(t.v1@),
        screen_xy_ok_s(t.v2@),
    ensures
        r == signed_area_s(
            t.v0@.transformed_position,
            t.v1@.transformed_position,
            t.v2@.transformed_position,
        ),
{
    let a = &t.v0.transformed_position;
    let b = &t.v1.transformed_position;
    let c = &t.v2.transformed_position;
    let e1x: i128 = (b.x as i128) - (a.x as i128);
    let e1y: i128 = (b.y as i128) - (a.y as i128);
    let e2x: i128 = (c.x as i128) - (a.x as i128);
    let e2y: i128 = (c.y as i128) - (a.y as i128);
    proof {
        assert(crate::fixed::mag_s((e1x as int) * (e2y as int)) <= 0x10000000000000000
            && crate::fixed::mag_s((e1y as int) * (e2x as int)) <= 0x10000000000000000)
            by (nonlinear_arith)
            requires
                crate::fixed::mag_s(e1x as int) <= 0x100000000,
                crate::fixed::mag_s(e1y as int) <= 0x100000000,
                crate::fixed::mag_s(e2x as int) <= 0x100000000,
                crate::fixed::mag_s(e2y as int) <= 0x100000000,
        ;
    }
    e1x * e2y - e1y * e2x
}

/// What one shaded fragment leaves of the surfaces: its pixel position in
/// whole units, the material dispatch for its color, and the depth-tested
/// write; a pixel outside the representable extent changes nothing.
pub open spec fn shaded_write_s(
    d: Seq<i64>,
    c: Seq<Color>,
    w: int,
    h: int,
    u: Uniformss,
    f: Fragments,
) -> (Seq<i64>, Seq<Color>) {
    let x = fx_floor_s(f.position.x);
    let y = fx_floor_s(f.position.y);
    if 0 <= x < 32768 && 0 <= y < 32768 {
        point_s(d, c, w, h, x, y, fragment_shader_s(f, u), f.depth as i64)
    } else {
        (d, c)
    }
}

/// The surfaces after the first k shaded fragments were written in order.
pub open spec fn shaded_writes_s(
    d: Seq<i64>,
    c: Seq<Color>,
    w: int,
    h: int,
    u: Uniformss,
    frags: Seq<Fragments>,
    k: int,
) -> (Seq<i64>, Seq<Color>)
    decreases k,
{
    if k <= 0 {
        (d, c)
    } else {
        let prev = shaded_writes_s(d, c, w, h, u, frags, k - 1);
        shaded_write_s(prev.0, prev.1, w, h, u, frags[k - 1])
    }
}

/// What one ring or moon overlay fragment leaves of the surfaces, given
/// its already-shaded color.
pub open spec fn overlay_write_s(
    d: Seq<i64>,
    c: Seq<Color>,
    w: int,
    h: int,
    color: Vec3s,
    f: Fragments,
) -> (Seq<i64>, Seq<Color>) {
    let x = fx_floor_s(f.position.x);
    let y = fx_floor_s(f.position.y);
    if -0x80000000 <= x <= 0x7fffffff && -0x80000000 <= y <= 0x7fffffff {
        point_s(d, c, w, h, x, y, color, f.depth as i64)
    } else {
        (d, c)
    }
}

/// The surfaces after the first k ring overlay fragments were written in
/// order.
pub open spec fn ring_writes_s(
    d: Seq<i64>,
    c: Seq<Color>,
    w: int,
    h: int,
    frags: Seq<Fragments>,
    k: int,
) -> (Seq<i64>, Seq<Color>)
    decreases k,
{
    if k <= 0 {
        (d, c)
    } else {
        let prev = ring_writes_s(d, c, w, h, frags, k - 1);
        overlay_write_s(
            prev.0,
            prev.1,
            w,
            h,
            ring_fragment_color_s(frags[k - 1].world_position),
            frags[k - 1],
        )
    }
}

/// The surfaces after the first k moon overlay fragments were written in
/// order.
pub open spec fn moon_writes_s(
    d: Seq<i64>,
    c: Seq<Color>,
    w: int,
    h: int,
    frags: Seq<Fragments>,
    k: int,
) -> (Seq<i64>, Seq<Color>)
    decreases k,
{
    if k <= 0 {
        (d, c)
    } else {
        let prev = moon_writes_s(d, c, w, h, frags, k - 1);
        overlay_write_s(
            prev.0,
            prev.1,
            w,
            h,
            moon_fragment_color_s(frags[k - 1].world_position),
            frags[k - 1],
        )
    }
}

/// The i-th triangle of a pass: three consecutive mesh vertices taken
/// through the vertex stage.
pub open spec fn pass_tri_s(va: Seq<Vertex>, u: Uniformss, i: int) -> (Vertexs, Vertexs, Vertexs) {
    (
        vertex_shader_s(va[3 * i]@, u),
        vertex_shader_s(va[3 * i + 1]@, u),
        vertex_shader_s(va[3 * i + 2]@, u),
    )
}

/// The surfaces after the first t triangles of the standard pass: each
/// kept triangle's fragments are shaded by the material dispatch and
/// written depth-tested, in order.
pub open spec fn render_body_tris_s(
    d: Seq<i64>,
    c: Seq<Color>,
    w: int,
    h: int,
    va: Seq<Vertex>,
    u: Uniformss,
    t: int,
) -> (Seq<i64>, Seq<Color>)
    decreases t,
{
    if t <= 0 {
        (d, c)
    } else {
        let prev = render_body_tris_s(d, c, w, h, va, u, t - 1);
        let tri = pass_tri_s(va, u, t - 1);
        if tri_kept_s(tri.0, tri.1, tri.2) {
            let frags = raster_fragments_s(tri.0, tri.1, tri.2);
            shaded_writes_s(prev.0, prev.1, w, h, u, frags, frags.len() as int)
        } else {
            prev
        }
    }
}

/// The whole standard pass: every complete vertex triple, under the given
/// uniforms, onto the given surfaces.
pub open spec fn render_body_s(
    d: Seq<i64>,
    c: Seq<Color>,
    w: int,
    h: int,
    va: Seq<Vertex>,
    u: Uniformss,
) -> (Seq<i64>, Seq<Color>) {
    render_body_tris_s(d, c, w, h, va, u, va.len() as int / 3)
}

/// The surfaces after the first t triangles of the ring pass: no culling,
/// and the radial band overlay shades every fragment.
pub open spec fn render_rings_tris_s(
    d: Seq<i64>,
    c: Seq<Color>,
    w: int,
    h: int,
    va: Seq<Vertex>,
    u: Uniformss,
    t: int,
) -> (Seq<i64>, Seq<Color>)
    decreases t,
{
    if t <= 0 {
        (d, c)
    } else {
        let prev = render_rings_tris_s(d, c, w, h, va, u, t - 1);
        let tri = pass_tri_s(va, u, t - 1);
        let frags = raster_fragments_s(tri.0, tri.1, tri.2);
        ring_writes_s(prev.0, prev.1, w, h, frags, frags.len() as int)
    }
}

/// The whole ring pass, in ring render mode.
pub open spec fn render_rings_s(
    d: Seq<i64>,
    c: Seq<Color>,
    w: int,
    h: int,
    va: Seq<Vertex>,
    u: Uniformss,
) -> (Seq<i64>, Seq<Color>) {
    render_rings_tris_s(d, c, w, h, va, Uniformss { render_type: 1, ..u }, va.len() as int / 3)
}

/// The surfaces after the first t triangles of the moon pass: no culling,
/// and the crater overlay shades every fragment.
pub open spec fn render_moon_tris_s(
    d: Seq<i64>,
    c: Seq<Color>,
    w: int,
    h: int,
    va: Seq<Vertex>,
    u: Uniformss,
    t: int,
) -> (Seq<i64>, Seq<Color>)
    decreases t,
{
    if t <= 0 {
        (d, c)
    } else {
        let prev = render_moon_tris_s(d, c, w, h, va, u, t - 1);
        let tri = pass_tri_s(va, u, t - 1);
        let frags = raster_fragments_s(tri.0, tri.1, tri.2);
        moon_writes_s(prev.0, prev.1, w, h, frags, frags.len() as int)
    }
}

/// The whole moon pass, in moon render mode.
pub open spec fn render_moon_s(
    d: Seq<i64>,
    c: Seq<Color>,
    w: int,
    h: int,
    va: Seq<Vertex>,
    u: Uniformss,
) -> (Seq<i64>, Seq<Color>) {
    render_moon_tris_s(d, c, w, h, va, Uniformss { render_type: 2, ..u }, va.len() as int / 3)
}

/// Shade the fragments of one rasterized triangle with the general
/// material dispatch and write them depth-tested into the frame buffer.
fn write_fragments_shaded(
    framebuffer: &mut Framebuffer,
    uniforms: &Uniforms,
    frags: &Vec<Fragment>,
    Ghost(gfrags): Ghost<Seq<Fragments>>,
)
    requires
        old(framebuffer).wf(),
        frags_match(frags@, gfrags),
    ensures
        final(framebuffer).wf(),
        final(framebuffer).same_config(old(framebuffer)),
        (final(framebuffer).depth_buffer@, final(framebuffer).color_buffer@) == shaded_writes_s(
            old(framebuffer).depth_buffer@,
            old(framebuffer).color_buffer@,
            old(framebuffer).width as int,
            old(framebuffer).height as int,
            uniforms@,
            gfrags,
            gfrags.len() as int,
        ),
        forall|i: int|
            0 <= i < old(framebuffer).depth_buffer@.len() ==> final(framebuffer).depth_buffer@[i]
                <= old(framebuffer).depth_buffer@[i],
        forall|i: int|
            0 <= i < old(framebuffer).color_buffer@.len() && final(framebuffer).color_buffer@[i]
                != old(framebuffer).color_buffer@[i] ==> final(framebuffer).depth_buffer@[i] < old(
                framebuffer,
            ).depth_buffer@[i],
{
    let ghost fb0 = *framebuffer;
    let n = frags.len();
    let mut k: usize = 0;
    while k < n
        invariant
            n == frags@.len(),
            n == gfrags.len(),
            frags_match(frags@, gfrags),
            k <= n,
            framebuffer.wf(),
            framebuffer.same_config(&fb0),
            fb0.wf(),
            (framebuffer.depth_buffer@, framebuffer.color_buffer@) == shaded_writes_s(
                fb0.depth_buffer@,
                fb0.color_buffer@,
                fb0.width as int,
                fb0.height as int,
                uniforms@,
                gfrags,
                k as int,
            ),
            forall|i: int|
                0 <= i < fb0.depth_buffer@.len() ==> framebuffer.depth_buffer@[i]
                    <= fb0.depth_buffer@[i],
            forall|i: int|
                0 <= i < fb0.color_buffer@.len() && framebuffer.color_buffer@[i]
                    != fb0.color_buffer@[i] ==> framebuffer.depth_buffer@[i]
                    < fb0.depth_buffer@[i],
        decreases n - k,
    {
        let fragment = &frags[k];
        let x = fx_floor_units(fragment.position.x);
        let y = fx_floor_units(fragment.position.y);
        if x >= 0 && x < 32768 && y >= 0 && y < 32768 {
            let final_color = fragment_shader(fragment, uniforms);
            framebuffer.point(x as i32, y as i32, final_color, fragment.depth);
        }
        k = k + 1;
    }
}

/// Write one rasterized triangle's fragments with the ring overlay color.
fn write_fragments_ring(
    framebuffer: &mut Framebuffer,
    frags: &Vec<Fragment>,
    Ghost(gfrags): Ghost<Seq<Fragments>>,
)
    requires
        old(framebuffer).wf(),
        frags_match(frags@, gfrags),
    ensures
        final(framebuffer).wf(),
        final(framebuffer).same_config(old(framebuffer)),
        (final(framebuffer).depth_buffer@, final(framebuffer).color_buffer@) == ring_writes_s(
            old(framebuffer).depth_buffer@,
            old(framebuffer).color_buffer@,
            old(framebuffer).width as int,
            old(framebuffer).height as int,
            gfrags,
            gfrags.len() as int,
        ),
        forall|i: int|
            0 <= i < old(framebuffer).depth_buffer@.len() ==> final(framebuffer).depth_buffer@[i]
                <= old(framebuffer).depth_buffer@[i],
        forall|i: int|
            0 <= i < old(framebuffer).color_buffer@.len() && final(framebuffer).color_buffer@[i]
                != old(framebuffer).color_buffer@[i] ==> final(framebuffer).depth_buffer@[i] < old(
                framebuffer,
            ).depth_buffer@[i],
{
    let ghost fb0 = *framebuffer;
    let n = frags.len();
    let mut k: usize = 0;
    while k < n
        invariant
            n == frags@.len(),
            n == gfrags.len(),
            frags_match(frags@, gfrags),
            k <= n,
            framebuffer.wf(),
            framebuffer.same_config(&fb0),
            fb0.wf(),
            (framebuffer.depth_buffer@, framebuffer.color_buffer@) == ring_writes_s(
                fb0.depth_buffer@,
                fb0.color_buffer@,
                fb0.width as int,
                fb0.height as int,
                gfrags,
                k as int,
            ),
            forall|i: int|
                0 <= i < fb0.depth_buffer@.len() ==> framebuffer.depth_buffer@[i]
                    <= fb0.depth_buffer@[i],
            forall|i: int|
                0 <= i < fb0.color_buffer@.len() && framebuffer.color_buffer@[i]
                    != fb0.color_buffer@[i] ==> framebuffer.depth_buffer@[i]
                    < fb0.depth_buffer@[i],
        decreases n - k,
    {
        let fragment = &frags[k];
        let final_color = ring_fragment_color(&fragment.world_position);
        let x = fx_floor_units(fragment.position.x);
        let y = fx_floor_units(fragment.position.y);
        if x >= -2147483648 && x <= 2147483647 && y >= -2147483648 && y <= 2147483647 {
            framebuffer.point(x as i32, y as i32, final_color, fragment.depth);
        }
        k = k + 1;
    }
}

/// Write one rasterized triangle's fragments with the moon overlay color.
fn write_fragments_moon(
    framebuffer: &mut Framebuffer,
    frags: &Vec<Fragment>,
    Ghost(gfrags): Ghost<Seq<Fragments>>,
)
    requires
        old(framebuffer).wf(),
        frags_match(frags@, gfrags),
    ensures
        final(framebuffer).wf(),
        final(framebuffer).same_config(old(framebuffer)),
        (final(framebuffer).depth_buffer@, final(framebuffer).color_buffer@) == moon_writes_s(
            old(framebuffer).depth_buffer@,
            old(framebuffer).color_buffer@,
            old(framebuffer).width as int,
            old(framebuffer).height as int,
            gfrags,
            gfrags.len() as int,
        ),
        forall|i: int|
            0 <= i < old(framebuffer).depth_buffer@.len() ==> final(framebuffer).depth_buffer@[i]
                <= old(framebuffer).depth_buffer@[i],
        forall|i: int|
            0 <= i < old(framebuffer).color_buffer@.len() && final(framebuffer).color_buffer@[i]
                != old(framebuffer).color_buffer@[i] ==> final(framebuffer).depth_buffer@[i] < old(
                framebuffer,
            ).depth_buffer@[i],
{
    let ghost fb0 = *framebuffer;
    let n = frags.len();
    let mut k: usize = 0;
    while k < n
        invariant
            n == frags@.len(),
            n == gfrags.len(),
            frags_match(frags@, gfrags),
            k <= n,
            framebuffer.wf(),
            framebuffer.same_config(&fb0),
            fb0.wf(),
            (framebuffer.depth_buffer@, framebuffer.color_buffer@) == moon_writes_s(
                fb0.depth_buffer@,
                fb0.color_buffer@,
                fb0.width as int,
                fb0.height as int,
                gfrags,
                k as int,
            ),
            forall|i: int|
                0 <= i < fb0.depth_buffer@.len() ==> framebuffer.depth_buffer@[i]
                    <= fb0.depth_buffer@[i],
            forall|i: int|
                0 <= i < fb0.color_buffer@.len() && framebuffer.color_buffer@[i]
                    != fb0.color_buffer@[i] ==> framebuffer.depth_buffer@[i]
                    < fb0.depth_buffer@[i],
        decreases n - k,
    {
        let fragment = &frags[k];
        let final_color = moon_fragment_color(&fragment.world_position);
        let x = fx_floor_units(fragment.position.x);
        let y = fx_floor_units(fragment.position.y);
        if x >= -2147483648 && x <= 2147483647 && y >= -2147483648 && y <= 2147483647 {
            framebuffer.point(x as i32, y as i32, final_color, fragment.depth);
        }
        k = k + 1;
    }
}

/// One complete render pass for standard and ship geometry: the vertex
/// stage over the mesh, grouping into consecutive triangle triples
/// (trailing leftover vertices produce nothing), the conservative frustum
/// reject, screen-space back-face culling, rasterization, the material
/// dispatch, and the depth-tested write of every fragment. The surfaces
/// after the call are exactly the specified fold of those writes.
pub fn render_body(
    framebuffer: &mut Framebuffer,
    uniforms: &Uniforms,
    vertex_array: &Vec<Vertex>,
    light: &Light,
)
    requires
        old(framebuffer).wf(),
    ensures
        final(framebuffer).wf(),
        final(framebuffer).same_config(old(framebuffer)),
        (final(framebuffer).depth_buffer@, final(framebuffer).color_buffer@) == render_body_s(
            old(framebuffer).depth_buffer@,
            old(framebuffer).color_buffer@,
            old(framebuffer).width as int,
            old(framebuffer).height as int,
            vertex_array@,
            uniforms@,
        ),
        forall|i: int|
            0 <= i < old(framebuffer).depth_buffer@.len() ==> final(framebuffer).depth_buffer@[i]
                <= old(framebuffer).depth_buffer@[i],
        forall|i: int|
            0 <= i < old(framebuffer).color_buffer@.len() && final(framebuffer).color_buffer@[i]
                != old(framebuffer).color_buffer@[i] ==> final(framebuffer).depth_buffer@[i] < old(
                framebuffer,
            ).depth_buffer@[i],
        vertex_array@.len() < 3 ==> *final(framebuffer) == *old(framebuffer),
{
    let ghost fb0 = *framebuffer;
    let transformed = transform_vertices(vertex_array, uniforms);
    let triangles = assemble_triangles(&transformed);
    proof {
        lemma_fundamental_div_mod(vertex_array@.len() as int, 3);
        vstd::arithmetic::div_mod::lemma_mod_division_less_than_divisor(
            vertex_array@.len() as int,
            3,
        );
        if vertex_array@.len() < 3 {
            lemma_basic_div_specific_divisor(3);
        }
    }
    let n = triangles.len();
    let mut t: usize = 0;
    while t < n
        invariant
            n == triangles@.len(),
            n == vertex_array@.len() as int / 3,
            3 * n <= vertex_array@.len(),
            t <= n,
            transformed@.len() == vertex_array@.len(),
            forall|k: int|
                0 <= k < transformed@.len() ==> transformed@[k]@ == vertex_shader_s(
                    vertex_array@[k]@,
                    uniforms@,
                ),
            forall|k: int|
                0 <= k < n ==> triangles@[k] == (Triangle {
                    v0: transformed@[3 * k],
                    v1: transformed@[3 * k + 1],
                    v2: transformed@[3 * k + 2],
                }),
            n == 0 ==> *framebuffer == fb0,
            framebuffer.wf(),
            framebuffer.same_config(&fb0),
            fb0.wf(),
            (framebuffer.depth_buffer@, framebuffer.color_buffer@) == render_body_tris_s(
                fb0.depth_buffer@,
                fb0.color_buffer@,
                fb0.width as int,
                fb0.height as int,
                vertex_array@,
                uniforms@,
                t as int,
            ),
            forall|i: int|
                0 <= i < fb0.depth_buffer@.len() ==> framebuffer.depth_buffer@[i]
                    <= fb0.depth_buffer@[i],
            forall|i: int|
                0 <= i < fb0.color_buffer@.len() && framebuffer.color_buffer@[i]
                    != fb0.color_buffer@[i] ==> framebuffer.depth_buffer@[i]
                    < fb0.depth_buffer@[i],
        decreases n - t,
    {
        let tri = &triangles[t];
        proof {
            assert(tri.v0@ == pass_tri_s(vertex_array@, uniforms@, t as int).0);
            assert(tri.v1@ == pass_tri_s(vertex_array@, uniforms@, t as int).1);
            assert(tri.v2@ == pass_tri_s(vertex_array@, uniforms@, t as int).2);
        }
        if frustum_pass(tri) && tri_coords_in_band(tri) {
            let cross_z = screen_cross_z(tri);
            if cross_z >= 0 {
                let frags = triangle(&tri.v0, &tri.v1, &tri.v2, light);
                write_fragments_shaded(
                    framebuffer,
                    uniforms,
                    &frags,
                    Ghost(raster_fragments_s(tri.v0@, tri.v1@, tri.v2@)),
                );
            }
        }
        t = t + 1;
    }
}

/// The render-mode-specialized pass for the procedural ring disk: the
/// same mesh run through the vertex stage in ring mode, every triangle
/// rasterized (no culling, as a thin disk is visible from both sides) and
/// shaded with the radial band overlay. The surfaces after the call are
/// exactly the specified fold of those writes.
pub fn render_rings(
    framebuffer: &mut Framebuffer,
    uniforms: &Uniforms,
    vertex_array: &Vec<Vertex>,
    light: &Light,
)
    requires
        old(framebuffer).wf(),
    ensures
        final(framebuffer).wf(),
        final(framebuffer).same_config(old(framebuffer)),
        (final(framebuffer).depth_buffer@, final(framebuffer).color_buffer@) == render_rings_s(
            old(framebuffer).depth_buffer@,
            old(framebuffer).color_buffer@,
            old(framebuffer).width as int,
            old(framebuffer).height as int,
            vertex_array@,
            uniforms@,
        ),
        forall|i: int|
            0 <= i < old(framebuffer).depth_buffer@.len() ==> final(framebuffer).depth_buffer@[i]
                <= old(framebuffer).depth_buffer@[i],
        forall|i: int|
            0 <= i < old(framebuffer).color_buffer@.len() && final(framebuffer).color_buffer@[i]
                != old(framebuffer).color_buffer@[i] ==> final(framebuffer).depth_buffer@[i] < old(
                framebuffer,
            ).depth_buffer@[i],
        vertex_array@.len() < 3 ==> *final(framebuffer) == *old(framebuffer),
{
    let ghost fb0 = *framebuffer;
    let mut ring_uniforms = uniforms.clone();
    ring_uniforms.render_type = 1;
    proof {
        assert(ring_uniforms@ == (Uniformss { render_type: 1, ..uniforms@ }));
    }
    let transformed = transform_vertices(vertex_array, &ring_uniforms);
    let triangles = assemble_triangles(&transformed);
    proof {
        lemma_fundamental_div_mod(vertex_array@.len() as int, 3);
        vstd::arithmetic::div_mod::lemma_mod_division_less_than_divisor(
            vertex_array@.len() as int,
            3,
        );
        if vertex_array@.len() < 3 {
            lemma_basic_div_specific_divisor(3);
        }
    }
    let n = triangles.len();
    let mut t: usize = 0;
    while t < n
        invariant
            n == triangles@.len(),
            n == vertex_array@.len() as int / 3,
            3 * n <= vertex_array@.len(),
            t <= n,
            ring_uniforms@ == (Uniformss { render_type: 1, ..uniforms@ }),
            transformed@.len() == vertex_array@.len(),
            forall|k: int|
                0 <= k < transformed@.len() ==> transformed@[k]@ == vertex_shader_s(
                    vertex_array@[k]@,
                    ring_uniforms@,
                ),
            forall|k: int|
                0 <= k < n ==> triangles@[k] == (Triangle {
                    v0: transformed@[3 * k],
                    v1: transformed@[3 * k + 1],
                    v2: transformed@[3 * k + 2],
                }),
            n == 0 ==> *framebuffer == fb0,
            framebuffer.wf(),
            framebuffer.same_config(&fb0),
            fb0.wf(),
            (framebuffer.depth_buffer@, framebuffer.color_buffer@) == render_rings_tris_s(
                fb0.depth_buffer@,
                fb0.color_buffer@,
                fb0.width as int,
                fb0.height as int,
                vertex_array@,
                ring_uniforms@,
                t as int,
            ),
            forall|i: int|
                0 <= i < fb0.depth_buffer@.len() ==> framebuffer.depth_buffer@[i]
                    <= fb0.depth_buffer@[i],
            forall|i: int|
                0 <= i < fb0.color_buffer@.len() && framebuffer.color_buffer@[i]
                    != fb0.color_buffer@[i] ==> framebuffer.depth_buffer@[i]
                    < fb0.depth_buffer@[i],
        decreases n - t,
    {
        let tri = &triangles[t];
        proof {
            assert(tri.v0@ == pass_tri_s(vertex_array@, ring_uniforms@, t as int).0);
            assert(tri.v1@ == pass_tri_s(vertex_array@, ring_uniforms@, t as int).1);
            assert(tri.v2@ == pass_tri_s(vertex_array@, ring_uniforms@, t as int).2);
        }
        let frags = triangle(&tri.v0, &tri.v1, &tri.v2, light);
        write_fragments_ring(
            framebuffer,
            &frags,
            Ghost(raster_fragments_s(tri.v0@, tri.v1@, tri.v2@)),
        );
        t = t + 1;
    }
}

/// The render-mode-specialized pass for the orbiting moon: the same mesh
/// run through the vertex stage in moon mode, every triangle rasterized
/// and shaded with the crater overlay. The surfaces after the call are
/// exactly the specified fold of those writes.
pub fn render_moon(
    framebuffer: &mut Framebuffer,
    uniforms: &Uniforms,
    vertex_array: &Vec<Vertex>,
    light: &Light,
)
    requires
        old(framebuffer).wf(),
    ensures
        final(framebuffer).wf(),
        final(framebuffer).same_config(old(framebuffer)),
        (final(framebuffer).depth_buffer@, final(framebuffer).color_buffer@) == render_moon_s(
            old(framebuffer).depth_buffer@,
            old(framebuffer).color_buffer@,
            old(framebuffer).width as int,
            old(framebuffer).height as int,
            vertex_array@,
            uniforms@,
        ),
        forall|i: int|
            0 <= i < old(framebuffer).depth_buffer@.len() ==> final(framebuffer).depth_buffer@[i]
                <= old(framebuffer).depth_buffer@[i],
        forall|i: int|
            0 <= i < old(framebuffer).color_buffer@.len() && final(framebuffer).color_buffer@[i]
                != old(framebuffer).color_buffer@[i] ==> final(framebuffer).depth_buffer@[i] < old(
                framebuffer,
            ).depth_buffer@[i],
        vertex_array@.len() < 3 ==> *final(framebuffer) == *old(framebuffer),
{
    let ghost fb0 = *framebuffer;
    let mut moon_uniforms = uniforms.clone();
    moon_uniforms.render_type = 2;
    proof {
        assert(moon_uniforms@ == (Uniformss { render_type: 2, ..uniforms@ }));
    }
    let transformed = transform_vertices(vertex_array, &moon_uniforms);
    let triangles = assemble_triangles(&transformed);
    proof {
        lemma_fundamental_div_mod(vertex_array@.len() as int, 3);
        vstd::arithmetic::div_mod::lemma_mod_division_less_than_divisor(
            vertex_array@.len() as int,
            3,
        );
        if vertex_array@.len() < 3 {
            lemma_basic_div_specific_divisor(3);
        }
    }
    let n = triangles.len();
    let mut t: usize = 0;
    while t < n
        invariant
            n == triangles@.len(),
            n == vertex_array@.len() as int / 3,
            3 * n <= vertex_array@.len(),
            t <= n,
            moon_uniforms@ == (Uniformss { render_type: 2, ..uniforms@ }),
            transformed@.len() == vertex_array@.len(),
            forall|k: int|
                0 <= k < transformed@.len() ==> transformed@[k]@ == vertex_shader_s(
                    vertex_array@[k]@,
                    moon_uniforms@,
                ),
            forall|k: int|
                0 <= k < n ==> triangles@[k] == (Triangle {
                    v0: transformed@[3 * k],
                    v1: transformed@[3 * k + 1],
                    v2: transformed@[3 * k + 2],
                }),
            n == 0 ==> *framebuffer == fb0,
            framebuffer.wf(),
            framebuffer.same_config(&fb0),
            fb0.wf(),
            (framebuffer.depth_buffer@, framebuffer.color_buffer@) == render_moon_tris_s(
                fb0.depth_buffer@,
                fb0.color_buffer@,
                fb0.width as int,
                fb0.height as int,
                vertex_array@,
                moon_uniforms@,
                t as int,
            ),
            forall|i: int|
                0 <= i < fb0.depth_buffer@.len() ==> framebuffer.depth_buffer@[i]
                    <= fb0.depth_buffer@[i],
            forall|i: int|
                0 <= i < fb0.color_buffer@.len() && framebuffer.color_buffer@[i]
                    != fb0.color_buffer@[i] ==> framebuffer.depth_buffer@[i]
                    < fb0.depth_buffer@[i],
        decreases n - t,
    {
        let tri = &triangles[t];
        proof {
            assert(tri.v0@ == pass_tri_s(vertex_array@, moon_uniforms@, t as int).0);
            assert(tri.v1@ == pass_tri_s(vertex_array@, moon_uniforms@, t as int).1);
            assert(tri.v2@ == pass_tri_s(vertex_array@, moon_uniforms@, t as int).2);
        }
        let frags = triangle(&tri.v0, &tri.v1, &tri.v2, light);
        write_fragments_moon(
            framebuffer,
            &frags,
            Ghost(raster_fragments_s(tri.v0@, tri.v1@, tri.v2@)),
        );
        t = t + 1;
    }
}

} // verus!
