//! The rasterizer: one triangle of transformed vertices into the finite
//! sequence of fragments covering its screen-space footprint.
//!
//! Coverage uses integer edge functions at whole-pixel centers with the
//! inclusive edge rule: a pixel belongs to the triangle when all three
//! barycentric weights carry the sign of the signed area (ties on shared
//! edges are accepted on both sides). Attributes are interpolated exactly,
//! as the floor of the weighted sum over the signed area. Degenerate
//! triangles, and triangles whose coordinates leave the guarded screen
//! band, produce no fragments.

use vstd::prelude::*;
use crate::fixed::{
    fx_max, fx_min, fx_floor_units, floor_div_i128, FX_SAT,
    fx_max_s, fx_min_s, fx_floor_s, mag_s,
};
use crate::vec3::{Vec3, Vec3s, in_band};
use crate::geometry::{Vertex, Vertexs, Fragment, Fragments, Light};
use vstd::arithmetic::div_mod::{lemma_div_is_ordered, lemma_div_multiples_vanish};

verus! {

/// Largest screen-coordinate magnitude the rasterizer accepts: 2^30 in
/// fixed point, or 16384 pixels, beyond any representable surface.
pub const COORD_LIMIT: i64 = 1073741824;

/// The edge function: the z component of the cross product of (b - a)
/// and (p - a). Positive when p lies to the left of the directed edge.
pub open spec fn edge_s(ax: int, ay: int, bx: int, by: int, px: int, py: int) -> int {
    (bx - ax) * (py - ay) - (by - ay) * (px - ax)
}

/// Twice the signed area of the screen-space triangle (a, b, c): positive
/// for counter-clockwise winding, the front-face orientation.
pub open spec fn signed_area_s(a: Vec3s, b: Vec3s, c: Vec3s) -> int {
    edge_s(a.x, a.y, b.x, b.y, c.x, c.y)
}

/// A triangle is back-facing when its screen-space winding is clockwise.
pub open spec fn is_back_facing_s(a: Vec3s, b: Vec3s, c: Vec3s) -> bool {
    signed_area_s(a, b, c) < 0
}

/// Swapping two vertices negates the signed area: reversing the winding
/// order of a triangle flips its orientation exactly.
pub proof fn lemma_winding_reversal(a: Vec3s, b: Vec3s, c: Vec3s)
    ensures
        signed_area_s(a, c, b) == -signed_area_s(a, b, c),
{
    assert((c.x - a.x) * (b.y - a.y) - (c.y - a.y) * (b.x - a.x) == -((b.x - a.x) * (c.y - a.y)
        - (b.y - a.y) * (c.x - a.x))) by (nonlinear_arith);
}

/// Reversing the winding order of a non-degenerate triangle flips the
/// back-face cull decision.
pub proof fn lemma_cull_flips_with_winding(a: Vec3s, b: Vec3s, c: Vec3s)
    requires
        signed_area_s(a, b, c) != 0,
    ensures
        is_back_facing_s(a, c, b) <==> !is_back_facing_s(a, b, c),
{
    lemma_winding_reversal(a, b, c);
}

/// The barycentric weight of vertex a at the pixel center (x, y): the
/// edge function of the opposite edge (b, c).
pub open spec fn weight_s(bx: int, by: int, cx: int, cy: int, x: int, y: int) -> int {
    edge_s(bx, by, cx, cy, x * 65536, y * 65536)
}

/// The three barycentric weights sum exactly to the signed area, at every
/// point.
#[verifier::rlimit(100)]
pub proof fn lemma_weight_sum(a: Vec3s, b: Vec3s, c: Vec3s, px: int, py: int)
    ensures
        edge_s(b.x, b.y, c.x, c.y, px, py) + edge_s(c.x, c.y, a.x, a.y, px, py) + edge_s(
            a.x,
            a.y,
            b.x,
            b.y,
            px,
            py,
        ) == signed_area_s(a, b, c),
{
    let bx = b.x - a.x;
    let by = b.y - a.y;
    let cx = c.x - a.x;
    let cy = c.y - a.y;
    let u = px - a.x;
    let v = py - a.y;
    assert((cx - bx) * (v - by) - (cy - by) * (u - bx) + (cy * u - cx * v) + (bx * v - by * u)
        == bx * cy - by * cx) by (nonlinear_arith);
    assert(edge_s(b.x, b.y, c.x, c.y, px, py) == (cx - bx) * (v - by) - (cy - by) * (u - bx))
        by (nonlinear_arith)
        requires
            bx == b.x - a.x,
            by == b.y - a.y,
            cx == c.x - a.x,
            cy == c.y - a.y,
            u == px - a.x,
            v == py - a.y,
    ;
    assert(edge_s(c.x, c.y, a.x, a.y, px, py) == cy * u - cx * v) by (nonlinear_arith)
        requires
            cx == c.x - a.x,
            cy == c.y - a.y,
            u == px - a.x,
            v == py - a.y,
    ;
    assert(edge_s(a.x, a.y, b.x, b.y, px, py) == bx * v - by * u) by (nonlinear_arith)
        requires
            bx == b.x - a.x,
            by == b.y - a.y,
            u == px - a.x,
            v == py - a.y,
    ;
    assert(signed_area_s(a, b, c) == bx * cy - by * cx) by (nonlinear_arith)
        requires
            bx == b.x - a.x,
            by == b.y - a.y,
            cx == c.x - a.x,
            cy == c.y - a.y,
    ;
}

/// For a point strictly inside a non-degenerate counter-clockwise
/// triangle (all three weights strictly positive), each weight lies
/// strictly between zero and the signed area, and the three sum exactly
/// to it: read as fractions of the area, the barycentric weights lie in
/// (0, 1) and sum exactly to 1.
pub proof fn lemma_barycentric_interior(a: Vec3s, b: Vec3s, c: Vec3s, px: int, py: int)
    requires
        signed_area_s(a, b, c) > 0,
        edge_s(b.x, b.y, c.x, c.y, px, py) > 0,
        edge_s(c.x, c.y, a.x, a.y, px, py) > 0,
        edge_s(a.x, a.y, b.x, b.y, px, py) > 0,
    ensures
        edge_s(b.x, b.y, c.x, c.y, px, py) + edge_s(c.x, c.y, a.x, a.y, px, py) + edge_s(
            a.x,
            a.y,
            b.x,
            b.y,
            px,
            py,
        ) == signed_area_s(a, b, c),
        0 < edge_s(b.x, b.y, c.x, c.y, px, py) < signed_area_s(a, b, c),
        0 < edge_s(c.x, c.y, a.x, a.y, px, py) < signed_area_s(a, b, c),
        0 < edge_s(a.x, a.y, b.x, b.y, px, py) < signed_area_s(a, b, c),
{
    lemma_weight_sum(a, b, c, px, py);
}

/// Every attribute of the vertex lies in the saturation band.
pub open spec fn vertex_attrs_ok_s(t: Vertexs) -> bool {
    &&& in_band(t.position)
    &&& in_band(t.transformed_normal)
    &&& in_band(t.transformed_position)
}

/// The screen position of the vertex lies in the guarded screen band.
pub open spec fn screen_xy_ok_s(t: Vertexs) -> bool {
    &&& mag_s(t.transformed_position.x) <= COORD_LIMIT as int
    &&& mag_s(t.transformed_position.y) <= COORD_LIMIT as int
}

/// The rasterizer accepts the triangle: attributes and screen positions
/// in range, and a non-zero signed area.
pub open spec fn raster_ok_s(t0: Vertexs, t1: Vertexs, t2: Vertexs) -> bool {
    &&& vertex_attrs_ok_s(t0)
    &&& vertex_attrs_ok_s(t1)
    &&& vertex_attrs_ok_s(t2)
    &&& screen_xy_ok_s(t0)
    &&& screen_xy_ok_s(t1)
    &&& screen_xy_ok_s(t2)
    &&& signed_area_s(t0.transformed_position, t1.transformed_position, t2.transformed_position)
        != 0
}

/// The pixel (x, y) is covered: all three weights carry the sign of the
/// signed area (the inclusive edge rule).
pub open spec fn covered_s(t0: Vertexs, t1: Vertexs, t2: Vertexs, x: int, y: int) -> bool {
    let p0 = t0.transformed_position;
    let p1 = t1.transformed_position;
    let p2 = t2.transformed_position;
    let area = signed_area_s(p0, p1, p2);
    let w0 = weight_s(p1.x, p1.y, p2.x, p2.y, x, y);
    let w1 = weight_s(p2.x, p2.y, p0.x, p0.y, x, y);
    let w2 = weight_s(p0.x, p0.y, p1.x, p1.y, x, y);
    if area > 0 {
        w0 >= 0 && w1 >= 0 && w2 >= 0
    } else if area < 0 {
        w0 <= 0 && w1 <= 0 && w2 <= 0
    } else {
        false
    }
}

/// The interpolated attribute: the floor of the weighted sum of the three
/// vertex attributes over the positive area.
pub open spec fn interp_s(q0: int, q1: int, q2: int, m: int, a0: int, a1: int, a2: int) -> int {
    (q0 * a0 + q1 * a1 + q2 * a2) / m
}

/// The positive weights and area of a covered pixel: the weights and the
/// area, negated together when the winding is clockwise.
pub open spec fn pos_weight_s(area: int, w: int) -> int {
    if area >= 0 {
        w
    } else {
        -w
    }
}

/// The fragment emitted for the covered pixel (x, y): the pixel position,
/// the interpolated object-space position, the renormalized interpolated
/// normal, and the interpolated depth.
pub open spec fn fragment_at_s(t0: Vertexs, t1: Vertexs, t2: Vertexs, x: int, y: int) -> Fragments {
    let p0 = t0.transformed_position;
    let p1 = t1.transformed_position;
    let p2 = t2.transformed_position;
    let area = signed_area_s(p0, p1, p2);
    let m = pos_weight_s(area, area);
    let q0 = pos_weight_s(area, weight_s(p1.x, p1.y, p2.x, p2.y, x, y));
    let q1 = pos_weight_s(area, weight_s(p2.x, p2.y, p0.x, p0.y, x, y));
    let q2 = pos_weight_s(area, weight_s(p0.x, p0.y, p1.x, p1.y, x, y));
    let depth = interp_s(q0, q1, q2, m, p0.z, p1.z, p2.z);
    Fragments {
        position: Vec3s { x: x * 65536, y: y * 65536, z: depth },
        world_position: Vec3s {
            x: interp_s(q0, q1, q2, m, t0.position.x, t1.position.x, t2.position.x),
            y: interp_s(q0, q1, q2, m, t0.position.y, t1.position.y, t2.position.y),
            z: interp_s(q0, q1, q2, m, t0.position.z, t1.position.z, t2.position.z),
        },
        normal: crate::vec3::v3_normalize_s(
            Vec3s {
                x: interp_s(
                    q0,
                    q1,
                    q2,
                    m,
                    t0.transformed_normal.x,
                    t1.transformed_normal.x,
                    t2.transformed_normal.x,
                ),
                y: interp_s(
                    q0,
                    q1,
                    q2,
                    m,
                    t0.transformed_normal.y,
                    t1.transformed_normal.y,
                    t2.transformed_normal.y,
                ),
                z: interp_s(
                    q0,
                    q1,
                    q2,
                    m,
                    t0.transformed_normal.z,
                    t1.transformed_normal.z,
                    t2.transformed_normal.z,
                ),
            },
        ),
        depth: depth,
    }
}

/// What the pixel (x, y) contributes: one fragment when covered, nothing
/// otherwise.
pub open spec fn cell_s(t0: Vertexs, t1: Vertexs, t2: Vertexs, x: int, y: int) -> Seq<Fragments> {
    if covered_s(t0, t1, t2, x, y) {
        seq![fragment_at_s(t0, t1, t2, x, y)]
    } else {
        Seq::empty()
    }
}

/// The fragments of one pixel row, for x in [x0, x_end).
pub open spec fn row_frags_s(
    t0: Vertexs,
    t1: Vertexs,
    t2: Vertexs,
    y: int,
    x0: int,
    x_end: int,
) -> Seq<Fragments>
    decreases x_end - x0,
{
    if x0 >= x_end {
        Seq::empty()
    } else {
        cell_s(t0, t1, t2, x0, y) + row_frags_s(t0, t1, t2, y, x0 + 1, x_end)
    }
}

/// The fragments of the pixel rows y in [y0, y_end), each row scanning x
/// in [x0, x_end).
pub open spec fn rows_frags_s(
    t0: Vertexs,
    t1: Vertexs,
    t2: Vertexs,
    y0: int,
    y_end: int,
    x0: int,
    x_end: int,
) -> Seq<Fragments>
    decreases y_end - y0,
{
    if y0 >= y_end {
        Seq::empty()
    } else {
        row_frags_s(t0, t1, t2, y0, x0, x_end) + rows_frags_s(t0, t1, t2, y0 + 1, y_end, x0, x_end)
    }
}

/// The smallest of three values.
pub open spec fn min3_s(a: int, b: int, c: int) -> int {
    fx_min_s(fx_min_s(a, b), c)
}

/// The largest of three values.
pub open spec fn max3_s(a: int, b: int, c: int) -> int {
    fx_max_s(fx_max_s(a, b), c)
}

/// First pixel column of the bounding box, clipped to the pixel extent.
pub open spec fn bb_x_min_s(t0: Vertexs, t1: Vertexs, t2: Vertexs) -> int {
    fx_max_s(
        0,
        fx_floor_s(
            min3_s(
                t0.transformed_position.x,
                t1.transformed_position.x,
                t2.transformed_position.x,
            ),
        ),
    )
}

/// One past the last pixel column of the bounding box.
pub open spec fn bb_x_end_s(t0: Vertexs, t1: Vertexs, t2: Vertexs) -> int {
    fx_min_s(
        32767,
        fx_floor_s(
            max3_s(
                t0.transformed_position.x,
                t1.transformed_position.x,
                t2.transformed_position.x,
            ),
        ) + 1,
    ) + 1
}

/// First pixel row of the bounding box, clipped to the pixel extent.
pub open spec fn bb_y_min_s(t0: Vertexs, t1: Vertexs, t2: Vertexs) -> int {
    fx_max_s(
        0,
        fx_floor_s(
            min3_s(
                t0.transformed_position.y,
                t1.transformed_position.y,
                t2.transformed_position.y,
            ),
        ),
    )
}

/// One past the last pixel row of the bounding box.
pub open spec fn bb_y_end_s(t0: Vertexs, t1: Vertexs, t2: Vertexs) -> int {
    fx_min_s(
        32767,
        fx_floor_s(
            max3_s(
                t0.transformed_position.y,
                t1.transformed_position.y,
                t2.transformed_position.y,
            ),
        ) + 1,
    ) + 1
}

/// Every fragment the triangle produces: the covered pixels of its
/// clipped bounding box in row-major order, or nothing when the triangle
/// is degenerate or out of the guarded band.
pub open spec fn raster_fragments_s(t0: Vertexs, t1: Vertexs, t2: Vertexs) -> Seq<Fragments> {
    if !raster_ok_s(t0, t1, t2) {
        Seq::empty()
    } else {
        rows_frags_s(
            t0,
            t1,
            t2,
            bb_y_min_s(t0, t1, t2),
            bb_y_end_s(t0, t1, t2),
            bb_x_min_s(t0, t1, t2),
            bb_x_end_s(t0, t1, t2),
        )
    }
}

/// The executable fragments match the specified ones, element by element.
pub open spec fn frags_match(s: Seq<Fragment>, t: Seq<Fragments>) -> bool {
    &&& s.len() == t.len()
    &&& forall|i: int| 0 <= i < s.len() ==> s[i]@ == t[i]
}

/// Extending a row by one pixel appends that pixel's contribution.
proof fn lemma_row_snoc(t0: Vertexs, t1: Vertexs, t2: Vertexs, y: int, x0: int, x: int)
    requires
        x0 <= x,
    ensures
        row_frags_s(t0, t1, t2, y, x0, x + 1) == row_frags_s(t0, t1, t2, y, x0, x) + cell_s(
            t0,
            t1,
            t2,
            x,
            y,
        ),
    decreases x - x0,
{
    if x0 == x {
        assert(row_frags_s(t0, t1, t2, y, x0 + 1, x + 1) =~= Seq::<Fragments>::empty());
        assert(row_frags_s(t0, t1, t2, y, x0, x) =~= Seq::<Fragments>::empty());
        assert(row_frags_s(t0, t1, t2, y, x0, x + 1) =~= cell_s(t0, t1, t2, x, y) + Seq::empty());
        assert(cell_s(t0, t1, t2, x, y) + Seq::empty() =~= cell_s(t0, t1, t2, x, y));
        assert(Seq::empty() + cell_s(t0, t1, t2, x, y) =~= cell_s(t0, t1, t2, x, y));
    } else {
        lemma_row_snoc(t0, t1, t2, y, x0 + 1, x);
        assert(row_frags_s(t0, t1, t2, y, x0, x + 1) == cell_s(t0, t1, t2, x0, y) + row_frags_s(
            t0,
            t1,
            t2,
            y,
            x0 + 1,
            x + 1,
        ));
        assert(cell_s(t0, t1, t2, x0, y) + (row_frags_s(t0, t1, t2, y, x0 + 1, x) + cell_s(
            t0,
            t1,
            t2,
            x,
            y,
        )) =~= (cell_s(t0, t1, t2, x0, y) + row_frags_s(t0, t1, t2, y, x0 + 1, x)) + cell_s(
            t0,
            t1,
            t2,
            x,
            y,
        ));
        assert(row_frags_s(t0, t1, t2, y, x0, x) == cell_s(t0, t1, t2, x0, y) + row_frags_s(
            t0,
            t1,
            t2,
            y,
            x0 + 1,
            x,
        ));
    }
}

/// Extending the scanned rows by one appends that row's fragments.
proof fn lemma_rows_snoc(
    t0: Vertexs,
    t1: Vertexs,
    t2: Vertexs,
    y0: int,
    y: int,
    x0: int,
    x_end: int,
)
    requires
        y0 <= y,
    ensures
        rows_frags_s(t0, t1, t2, y0, y + 1, x0, x_end) == rows_frags_s(
            t0,
            t1,
            t2,
            y0,
            y,
            x0,
            x_end,
        ) + row_frags_s(t0, t1, t2, y, x0, x_end),
    decreases y - y0,
{
    if y0 == y {
        assert(rows_frags_s(t0, t1, t2, y0 + 1, y + 1, x0, x_end) =~= Seq::<Fragments>::empty());
        assert(rows_frags_s(t0, t1, t2, y0, y, x0, x_end) =~= Seq::<Fragments>::empty());
        assert(row_frags_s(t0, t1, t2, y, x0, x_end) + Seq::empty() =~= row_frags_s(
            t0,
            t1,
            t2,
            y,
            x0,
            x_end,
        ));
        assert(Seq::empty() + row_frags_s(t0, t1, t2, y, x0, x_end) =~= row_frags_s(
            t0,
            t1,
            t2,
            y,
            x0,
            x_end,
        ));
    } else {
        lemma_rows_snoc(t0, t1, t2, y0 + 1, y, x0, x_end);
        assert(row_frags_s(t0, t1, t2, y0, x0, x_end) + (rows_frags_s(
            t0,
            t1,
            t2,
            y0 + 1,
            y,
            x0,
            x_end,
        ) + row_frags_s(t0, t1, t2, y, x0, x_end)) =~= (row_frags_s(t0, t1, t2, y0, x0, x_end)
            + rows_frags_s(t0, t1, t2, y0 + 1, y, x0, x_end)) + row_frags_s(
            t0,
            t1,
            t2,
            y,
            x0,
            x_end,
        ));
    }
}

/// All six arguments small enough that the edge products stay far inside
/// the wide integers.
fn edge_val(ax: i64, ay: i64, bx: i64, by: i64, px: i64, py: i64) -> (r: i128)
    requires
        mag_s(ax as int) <= 0x100000000,
        mag_s(ay as int) <= 0x100000000,
        mag_s(bx as int) <= 0x100000000,
        mag_s(by as int) <= 0x100000000,
        mag_s(px as int) <= 0x100000000,
        mag_s(py as int) <= 0x100000000,
    ensures
        r == edge_s(ax as int, ay as int, bx as int, by as int, px as int, py as int),
        mag_s(r as int) <= 0x100000000000000000,
{
    let d1x: i128 = (bx as i128) - (ax as i128);
    let d1y: i128 = (by as i128) - (ay as i128);
    let dpx: i128 = (px as i128) - (ax as i128);
    let dpy: i128 = (py as i128) - (ay as i128);
    proof {
        assert(mag_s((d1x as int) * (dpy as int)) <= 0x40000000000000000
            && mag_s((d1y as int) * (dpx as int)) <= 0x40000000000000000) by (nonlinear_arith)
            requires
                mag_s(d1x as int) <= 0x200000000,
                mag_s(d1y as int) <= 0x200000000,
                mag_s(dpx as int) <= 0x200000000,
                mag_s(dpy as int) <= 0x200000000,
        ;
    }
    d1x * dpy - d1y * dpx
}

/// The interpolated attribute of a covered pixel: the floor of the
/// weighted sum over the positive area. A convex combination of values in
/// the saturation band stays in the band.
fn interp_attr(q0: i128, q1: i128, q2: i128, m: i128, a0: i64, a1: i64, a2: i64) -> (r: i64)
    requires
        0 < m <= 0xFFFFFFFFFFFFFFFF,
        0 <= q0,
        0 <= q1,
        0 <= q2,
        q0 + q1 + q2 == m,
        -FX_SAT <= a0 <= FX_SAT,
        -FX_SAT <= a1 <= FX_SAT,
        -FX_SAT <= a2 <= FX_SAT,
    ensures
        r == interp_s(q0 as int, q1 as int, q2 as int, m as int, a0 as int, a1 as int, a2 as int),
        -FX_SAT <= r <= FX_SAT,
{
    proof {
        assert({
            &&& -((m as int) * (FX_SAT as int)) <= (q0 as int) * (a0 as int) + (q1 as int) * (
            a1 as int) + (q2 as int) * (a2 as int) <= (m as int) * (FX_SAT as int)
            &&& mag_s((q0 as int) * (a0 as int)) <= (m as int) * (FX_SAT as int)
            &&& mag_s((q1 as int) * (a1 as int)) <= (m as int) * (FX_SAT as int)
            &&& mag_s((q2 as int) * (a2 as int)) <= (m as int) * (FX_SAT as int)
        }) by (nonlinear_arith)
            requires
                0 <= q0,
                0 <= q1,
                0 <= q2,
                (q0 as int) + (q1 as int) + (q2 as int) == m as int,
                -FX_SAT <= a0 <= FX_SAT,
                -FX_SAT <= a1 <= FX_SAT,
                -FX_SAT <= a2 <= FX_SAT,
        ;
        assert((m as int) * (FX_SAT as int) <= 0x100000000000000000000000000) by (nonlinear_arith)
            requires
                0 < m <= 0xFFFFFFFFFFFFFFFF,
        ;
    }
    let numer: i128 = q0 * (a0 as i128) + q1 * (a1 as i128) + q2 * (a2 as i128);
    let q = floor_div_i128(numer, m as u64);
    proof {
        let mi = m as int;
        let sat = FX_SAT as int;
        lemma_div_is_ordered(numer as int, mi * sat, mi);
        lemma_div_multiples_vanish(sat, mi);
        lemma_div_is_ordered(-(mi * sat), numer as int, mi);
        lemma_div_multiples_vanish(-sat, mi);
        assert(mi * -sat == -(mi * sat)) by (nonlinear_arith);
    }
    q as i64
}

/// Every attribute of the vertex lies in the saturation band and its
/// screen position in the guarded screen band.
fn vertex_ok(v: &Vertex) -> (r: bool)
    ensures
        r == (vertex_attrs_ok_s(v@) && screen_xy_ok_s(v@)),
{
    let p = &v.position;
    let n = &v.transformed_normal;
    let t = &v.transformed_position;
    p.x >= -FX_SAT && p.x <= FX_SAT && p.y >= -FX_SAT && p.y <= FX_SAT && p.z >= -FX_SAT && p.z
        <= FX_SAT && n.x >= -FX_SAT && n.x <= FX_SAT && n.y >= -FX_SAT && n.y <= FX_SAT && n.z
        >= -FX_SAT && n.z <= FX_SAT && t.x >= -FX_SAT && t.x <= FX_SAT && t.y >= -FX_SAT && t.y
        <= FX_SAT && t.z >= -FX_SAT && t.z <= FX_SAT && t.x >= -COORD_LIMIT && t.x <= COORD_LIMIT
        && t.y >= -COORD_LIMIT && t.y <= COORD_LIMIT
}

/// Rasterize one triangle of transformed vertices into its fragments:
/// exactly the covered pixels of its clipped bounding box, row-major,
/// with exactly interpolated attributes; no fragments when the triangle
/// is degenerate or out of the guarded band. The light is carried for
/// interface parity with the shading stage, which derives its own
/// directions per material.
pub fn triangle(v0: &Vertex, v1: &Vertex, v2: &Vertex, light: &Light) -> (r: Vec<Fragment>)
    ensures
        frags_match(r@, raster_fragments_s(v0@, v1@, v2@)),
{
    let _ = light;
    let mut frags: Vec<Fragment> = Vec::new();
    if !(vertex_ok(v0) && vertex_ok(v1) && vertex_ok(v2)) {
        return frags;
    }
    let p0 = v0.transformed_position;
    let p1 = v1.transformed_position;
    let p2 = v2.transformed_position;
    let area: i128 = edge_val(p0.x, p0.y, p1.x, p1.y, p2.x, p2.y);
    if area == 0 {
        return frags;
    }
    proof {
        assert(mag_s(area as int) <= 0x8000000000000000) by (nonlinear_arith)
            requires
                area as int == ((p1.x as int) - (p0.x as int)) * ((p2.y as int) - (p0.y as int)) - (
                (p1.y as int) - (p0.y as int)) * ((p2.x as int) - (p0.x as int)),
                mag_s(p0.x as int) <= 0x40000000,
                mag_s(p0.y as int) <= 0x40000000,
                mag_s(p1.x as int) <= 0x40000000,
                mag_s(p1.y as int) <= 0x40000000,
                mag_s(p2.x as int) <= 0x40000000,
                mag_s(p2.y as int) <= 0x40000000,
        ;
    }
    let x_min: i64 = fx_max(0, fx_floor_units(fx_min(fx_min(p0.x, p1.x), p2.x)));
    let x_end: i64 = fx_min(32767, fx_floor_units(fx_max(fx_max(p0.x, p1.x), p2.x)) + 1) + 1;
    let y_min: i64 = fx_max(0, fx_floor_units(fx_min(fx_min(p0.y, p1.y), p2.y)));
    let y_end: i64 = fx_min(32767, fx_floor_units(fx_max(fx_max(p0.y, p1.y), p2.y)) + 1) + 1;

    let mut y: i64 = y_min;
    while y < y_end
        invariant
            raster_ok_s(v0@, v1@, v2@),
            area == signed_area_s(
                v0@.transformed_position,
                v1@.transformed_position,
                v2@.transformed_position,
            ),
            area != 0,
            mag_s(area as int) <= 0x8000000000000000,
            p0 == v0.transformed_position,
            p1 == v1.transformed_position,
            p2 == v2.transformed_position,
            x_min == bb_x_min_s(v0@, v1@, v2@),
            x_end == bb_x_end_s(v0@, v1@, v2@),
            y_min == bb_y_min_s(v0@, v1@, v2@),
            y_end == bb_y_end_s(v0@, v1@, v2@),
            0 <= x_min <= 32767,
            x_end <= 32768,
            0 <= y_min <= 32767,
            y_end <= 32768,
            y_min <= y,
            y <= fx_max_s(y_min as int, y_end as int),
            frags_match(
                frags@,
                rows_frags_s(v0@, v1@, v2@, y_min as int, y as int, x_min as int, x_end as int),
            ),
        decreases y_end - y,
    {
        let py: i64 = y * 65536;
        let mut x: i64 = x_min;
        while x < x_end
            invariant
                raster_ok_s(v0@, v1@, v2@),
                area == signed_area_s(
                    v0@.transformed_position,
                    v1@.transformed_position,
                    v2@.transformed_position,
                ),
                area != 0,
                mag_s(area as int) <= 0x8000000000000000,
                p0 == v0.transformed_position,
                p1 == v1.transformed_position,
                p2 == v2.transformed_position,
                x_min == bb_x_min_s(v0@, v1@, v2@),
                x_end == bb_x_end_s(v0@, v1@, v2@),
                0 <= x_min <= 32767,
                x_end <= 32768,
                0 <= y <= 32767,
                py == y * 65536,
                x_min <= x,
                x <= fx_max_s(x_min as int, x_end as int),
                frags_match(
                    frags@,
                    rows_frags_s(v0@, v1@, v2@, y_min as int, y as int, x_min as int, x_end as int)
                        + row_frags_s(v0@, v1@, v2@, y as int, x_min as int, x as int),
                ),
            decreases x_end - x,
        {
            let px: i64 = x * 65536;
            let w0 = edge_val(p1.x, p1.y, p2.x, p2.y, px, py);
            let w1 = edge_val(p2.x, p2.y, p0.x, p0.y, px, py);
            let w2 = edge_val(p0.x, p0.y, p1.x, p1.y, px, py);
            let covered = if area > 0 {
                w0 >= 0 && w1 >= 0 && w2 >= 0
            } else {
                w0 <= 0 && w1 <= 0 && w2 <= 0
            };
            let ghost frags_before = frags@;
            if covered {
                let m: i128 = if area > 0 {
                    area
                } else {
                    -area
                };
                let q0: i128 = if area > 0 {
                    w0
                } else {
                    -w0
                };
                let q1: i128 = if area > 0 {
                    w1
                } else {
                    -w1
                };
                let q2: i128 = if area > 0 {
                    w2
                } else {
                    -w2
                };
                proof {
                    lemma_weight_sum(
                        v0@.transformed_position,
                        v1@.transformed_position,
                        v2@.transformed_position,
                        px as int,
                        py as int,
                    );
                }
                let depth = interp_attr(q0, q1, q2, m, p0.z, p1.z, p2.z);
                let wx = interp_attr(q0, q1, q2, m, v0.position.x, v1.position.x, v2.position.x);
                let wy = interp_attr(q0, q1, q2, m, v0.position.y, v1.position.y, v2.position.y);
                let wz = interp_attr(q0, q1, q2, m, v0.position.z, v1.position.z, v2.position.z);
                let nx = interp_attr(
                    q0,
                    q1,
                    q2,
                    m,
                    v0.transformed_normal.x,
                    v1.transformed_normal.x,
                    v2.transformed_normal.x,
                );
                let ny = interp_attr(
                    q0,
                    q1,
                    q2,
                    m,
                    v0.transformed_normal.y,
                    v1.transformed_normal.y,
                    v2.transformed_normal.y,
                );
                let nz = interp_attr(
                    q0,
                    q1,
                    q2,
                    m,
                    v0.transformed_normal.z,
                    v1.transformed_normal.z,
                    v2.transformed_normal.z,
                );
                let normal = Vec3 { x: nx, y: ny, z: nz }.vnormalize();
                let f = Fragment {
                    position: Vec3 { x: px, y: py, z: depth },
                    world_position: Vec3 { x: wx, y: wy, z: wz },
                    normal,
                    depth,
                };
                proof {
                    assert(f@ == fragment_at_s(v0@, v1@, v2@, x as int, y as int));
                }
                frags.push(f);
            }
            proof {
                lemma_row_snoc(v0@, v1@, v2@, y as int, x_min as int, x as int);
                let rows = rows_frags_s(
                    v0@,
                    v1@,
                    v2@,
                    y_min as int,
                    y as int,
                    x_min as int,
                    x_end as int,
                );
                let rowx = row_frags_s(v0@, v1@, v2@, y as int, x_min as int, x as int);
                let cell = cell_s(v0@, v1@, v2@, x as int, y as int);
                assert(rows + row_frags_s(v0@, v1@, v2@, y as int, x_min as int, x as int + 1)
                    =~= (rows + rowx) + cell);
                if covered {
                    assert(cell =~= seq![fragment_at_s(v0@, v1@, v2@, x as int, y as int)]);
                    assert(frags@ == frags_before.push(
                        frags@[frags_before.len() as int],
                    ));
                    assert(frags@.len() == (rows + rowx).len() + 1);
                    assert(forall|i: int|
                        0 <= i < frags@.len() ==> frags@[i]@ == ((rows + rowx) + cell)[i]) by {
                        assert(forall|i: int|
                            0 <= i < frags_before.len() ==> frags@[i] == frags_before[i]);
                        assert(((rows + rowx) + cell)[(rows + rowx).len() as int] == cell[0]);
                    }
                } else {
                    assert(cell =~= Seq::<Fragments>::empty());
                    assert((rows + rowx) + cell =~= rows + rowx);
                }
                assert(frags_match(
                    frags@,
                    rows_frags_s(v0@, v1@, v2@, y_min as int, y as int, x_min as int, x_end as int)
                        + row_frags_s(v0@, v1@, v2@, y as int, x_min as int, x as int + 1),
                ));
            }
            x = x + 1;
        }
        proof {
            if x_min as int >= x_end as int {
                assert(row_frags_s(v0@, v1@, v2@, y as int, x_min as int, x as int) =~= Seq::<
                    Fragments,
                >::empty());
                assert(row_frags_s(v0@, v1@, v2@, y as int, x_min as int, x_end as int) =~= Seq::<
                    Fragments,
                >::empty());
            }
            lemma_rows_snoc(v0@, v1@, v2@, y_min as int, y as int, x_min as int, x_end as int);
        }
        y = y + 1;
    }
    proof {
        if y_min as int >= y_end as int {
            assert(rows_frags_s(
                v0@,
                v1@,
                v2@,
                y_min as int,
                y as int,
                x_min as int,
                x_end as int,
            ) =~= Seq::<Fragments>::empty());
            assert(rows_frags_s(
                v0@,
                v1@,
                v2@,
                y_min as int,
                y_end as int,
                x_min as int,
                x_end as int,
            ) =~= Seq::<Fragments>::empty());
        }
    }
    frags
}

/// The three barycentric weights and the signed area of a triangle at
/// one pixel center, as exact integers, or nothing when a screen
/// coordinate leaves the guarded band. The weights sum to the signed
/// area; divided by it they are the barycentric coordinates.
pub fn barycentric_weights(v0: &Vertex, v1: &Vertex, v2: &Vertex, x: i64, y: i64) -> (r: Option<
    (i128, i128, i128, i128),
>)
    requires
        0 <= x <= 32767,
        0 <= y <= 32767,
    ensures
        (screen_xy_ok_s(v0@) && screen_xy_ok_s(v1@) && screen_xy_ok_s(v2@)) ==> {
            let p0 = v0@.transformed_position;
            let p1 = v1@.transformed_position;
            let p2 = v2@.transformed_position;
            &&& r is Some
            &&& r->Some_0.0 == weight_s(p1.x, p1.y, p2.x, p2.y, x as int, y as int)
            &&& r->Some_0.1 == weight_s(p2.x, p2.y, p0.x, p0.y, x as int, y as int)
            &&& r->Some_0.2 == weight_s(p0.x, p0.y, p1.x, p1.y, x as int, y as int)
            &&& r->Some_0.3 == signed_area_s(p0, p1, p2)
        },
        !(screen_xy_ok_s(v0@) && screen_xy_ok_s(v1@) && screen_xy_ok_s(v2@)) ==> r is None,
{
    let p0 = v0.transformed_position;
    let p1 = v1.transformed_position;
    let p2 = v2.transformed_position;
    let ok = p0.x >= -COORD_LIMIT && p0.x <= COORD_LIMIT && p0.y >= -COORD_LIMIT && p0.y
        <= COORD_LIMIT && p1.x >= -COORD_LIMIT && p1.x <= COORD_LIMIT && p1.y >= -COORD_LIMIT
        && p1.y <= COORD_LIMIT && p2.x >= -COORD_LIMIT && p2.x <= COORD_LIMIT && p2.y
        >= -COORD_LIMIT && p2.y <= COORD_LIMIT;
    if !ok {
        return None;
    }
    let px: i64 = x * 65536;
    let py: i64 = y * 65536;
    let w0 = edge_val(p1.x, p1.y, p2.x, p2.y, px, py);
    let w1 = edge_val(p2.x, p2.y, p0.x, p0.y, px, py);
    let w2 = edge_val(p0.x, p0.y, p1.x, p1.y, px, py);
    let area = edge_val(p0.x, p0.y, p1.x, p1.y, p2.x, p2.y);
    Some((w0, w1, w2, area))
}

/// An assembled triangle: three consecutive transformed vertices.
#[derive(Clone, Copy, PartialEq, Eq, Structural, Debug)]
pub struct Triangle {
    pub v0: Vertex,
    pub v1: Vertex,
    pub v2: Vertex,
}

/// Group the transformed vertex stream into consecutive triples. Exactly
/// the leading complete triples become triangles; one or two trailing
/// leftover vertices are dropped silently, producing nothing.
pub fn assemble_triangles(vertices: &Vec<Vertex>) -> (r: Vec<Triangle>)
    ensures
        r@.len() == vertices@.len() as int / 3,
        forall|i: int|
            0 <= i < r@.len() ==> r@[i] == (Triangle {
                v0: vertices@[3 * i],
                v1: vertices@[3 * i + 1],
                v2: vertices@[3 * i + 2],
            }),
{
    let mut r: Vec<Triangle> = Vec::new();
    let n = vertices.len();
    let mut i: usize = 0;
    while n - i > 2
        invariant
            n == vertices@.len(),
            i % 3 == 0,
            i <= n,
            r@.len() == i as int / 3,
            forall|k: int|
                0 <= k < r@.len() ==> r@[k] == (Triangle {
                    v0: vertices@[3 * k],
                    v1: vertices@[3 * k + 1],
                    v2: vertices@[3 * k + 2],
                }),
        decreases n - i,
    {
        let t = Triangle { v0: vertices[i], v1: vertices[i + 1], v2: vertices[i + 2] };
        r.push(t);
        proof {
            vstd::arithmetic::div_mod::lemma_fundamental_div_mod(i as int, 3);
            vstd::arithmetic::div_mod::lemma_fundamental_div_mod_converse(
                i as int + 3,
                3,
                i as int / 3 + 1,
                0,
            );
        }
        i = i + 3;
    }
    proof {
        assert(r@.len() == vertices@.len() as int / 3) by {
            let ni = n as int;
            let ii = i as int;
            vstd::arithmetic::div_mod::lemma_fundamental_div_mod(ii, 3);
            if ii == ni {
            } else if ii + 1 == ni {
                vstd::arithmetic::div_mod::lemma_fundamental_div_mod_converse(
                    ni,
                    3,
                    ii / 3,
                    1,
                );
            } else {
                vstd::arithmetic::div_mod::lemma_fundamental_div_mod_converse(
                    ni,
                    3,
                    ii / 3,
                    2,
                );
            }
        }
    }
    r
}

} // verus!
