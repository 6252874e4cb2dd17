//! The frame buffer: a color surface and a per-pixel depth surface with a
//! nearer-wins z test.
//!
//! The sole mutation path for shaded geometry is `point`, which writes a
//! pixel only when the incoming depth is strictly nearer than the stored
//! one; ties lose. The stored depth at every pixel is therefore
//! non-increasing across any sequence of writes.

use vstd::prelude::*;
use crate::fixed::{fx_clamp, FX_ONE, fx_clamp_s, fx_floor_s, mag_s};
use crate::vec3::{Vec3, Vec3s};
use vstd::arithmetic::div_mod::{lemma_div_is_ordered, lemma_div_multiples_vanish};

verus! {

/// The depth value that every pixel holds after a clear: farther than any
/// depth a fragment can carry.
pub const DEPTH_INFINITY: i64 = i64::MAX;

/// Largest accepted surface side length.
pub const MAX_SURFACE_SIDE: usize = 32768;

/// An output pixel color, one byte per channel.
#[derive(Clone, Copy, PartialEq, Eq, Structural, Debug)]
pub struct Color {
    pub r: u8,
    pub g: u8,
    pub b: u8,
}

/// One linear color channel clamped into [0, FX_ONE] and quantized to a
/// byte.
pub open spec fn quantize_channel_s(c: int) -> int {
    (fx_clamp_s(c, 0, FX_ONE as int) * 255) / (FX_ONE as int)
}

/// A linear color quantized to an output pixel, channel by channel.
pub open spec fn quantize_color_s(c: Vec3s) -> Color {
    Color {
        r: quantize_channel_s(c.x) as u8,
        g: quantize_channel_s(c.y) as u8,
        b: quantize_channel_s(c.z) as u8,
    }
}

/// One linear color channel clamped and quantized to a byte.
fn quantize_channel(c: i64) -> (r: u8)
    ensures
        r == quantize_channel_s(c as int),
{
    let cl = fx_clamp(c, 0, FX_ONE);
    let q: u64 = (cl as u64) * 255 / 65536;
    proof {
        lemma_div_is_ordered((cl as int) * 255, 65536int * 255, 65536);
        lemma_div_multiples_vanish(255, 65536);
        lemma_div_is_ordered(0, (cl as int) * 255, 65536);
    }
    q as u8
}

/// A linear color quantized to an output pixel.
fn quantize_color(c: &Vec3) -> (r: Color)
    ensures
        r == quantize_color_s(c@),
{
    Color { r: quantize_channel(c.x), g: quantize_channel(c.y), b: quantize_channel(c.z) }
}

/// What one depth-tested point write leaves of the two surfaces: inside
/// the w x h extent and strictly nearer than the stored depth, the depth
/// and the quantized color are stored; otherwise nothing changes.
pub open spec fn point_s(
    depths: Seq<i64>,
    colors: Seq<Color>,
    w: int,
    h: int,
    x: int,
    y: int,
    color: Vec3s,
    depth: i64,
) -> (Seq<i64>, Seq<Color>) {
    let idx = y * w + x;
    if 0 <= x < w && 0 <= y < h && depth < depths[idx] {
        (depths.update(idx, depth), colors.update(idx, quantize_color_s(color)))
    } else {
        (depths, colors)
    }
}

/// One integer line walk: plot the current pixel depth-tested, stop at
/// the second endpoint, otherwise take the error-driven unit step toward
/// it and spend one unit of the iteration budget.
pub open spec fn line_walk_s(
    d: Seq<i64>,
    c: Seq<Color>,
    w: int,
    h: int,
    x0: int,
    y0: int,
    x1: int,
    y1: int,
    dx: int,
    dy: int,
    sx: int,
    sy: int,
    err: int,
    fuel: int,
    color: Vec3s,
    depth: i64,
) -> (Seq<i64>, Seq<Color>)
    decreases fuel,
{
    if fuel <= 0 {
        (d, c)
    } else {
        let plotted = point_s(d, c, w, h, x0, y0, color, depth);
        if x0 == x1 && y0 == y1 {
            plotted
        } else {
            let e2 = 2 * err;
            let step_x = e2 > -dy && x0 != x1;
            let step_y = e2 < dx && y0 != y1;
            line_walk_s(
                plotted.0,
                plotted.1,
                w,
                h,
                if step_x {
                    x0 + sx
                } else {
                    x0
                },
                if step_y {
                    y0 + sy
                } else {
                    y0
                },
                x1,
                y1,
                dx,
                dy,
                sx,
                sy,
                err + (if step_x {
                    -dy
                } else {
                    0
                }) + (if step_y {
                    dx
                } else {
                    0
                }),
                fuel - 1,
                color,
                depth,
            )
        }
    }
}

/// What one overlay line leaves of the surfaces: the endpoints clamped to
/// whole units in a band around any representable surface, then the
/// integer walk from the first endpoint to the second, every plotted
/// pixel depth-tested with the first endpoint's depth.
pub open spec fn draw_line_s(
    d: Seq<i64>,
    c: Seq<Color>,
    w: int,
    h: int,
    p0: Vec3s,
    p1: Vec3s,
    color: Vec3s,
) -> (Seq<i64>, Seq<Color>) {
    let x0 = fx_clamp_s(fx_floor_s(p0.x), -65536, 65536);
    let y0 = fx_clamp_s(fx_floor_s(p0.y), -65536, 65536);
    let x1 = fx_clamp_s(fx_floor_s(p1.x), -65536, 65536);
    let y1 = fx_clamp_s(fx_floor_s(p1.y), -65536, 65536);
    let dx = if x1 >= x0 {
        x1 - x0
    } else {
        x0 - x1
    };
    let dy = if y1 >= y0 {
        y1 - y0
    } else {
        y0 - y1
    };
    let sx: int = if x0 < x1 {
        1
    } else {
        -1
    };
    let sy: int = if y0 < y1 {
        1
    } else {
        -1
    };
    line_walk_s(d, c, w, h, x0, y0, x1, y1, dx, dy, sx, sy, dx - dy, dx + dy + 1, color, p0.z as i64)
}

/// The color surface and the depth surface of one frame.
pub struct Framebuffer {
    pub width: usize,
    pub height: usize,
    pub color_buffer: Vec<Color>,
    pub depth_buffer: Vec<i64>,
    pub background_color: Color,
    pub current_color: Color,
}

impl Framebuffer {
    /// Both surfaces cover width x height pixels and the sides are small
    /// enough that every index computation fits the machine.
    pub open spec fn wf(&self) -> bool {
        &&& self.color_buffer@.len() == self.width * self.height
        &&& self.depth_buffer@.len() == self.width * self.height
        &&& self.width <= MAX_SURFACE_SIDE
        &&& self.height <= MAX_SURFACE_SIDE
    }

    /// The pixel (x, y) lies on the surface.
    pub open spec fn in_bounds(&self, x: int, y: int) -> bool {
        0 <= x < self.width && 0 <= y < self.height
    }

    /// The buffer index of the pixel (x, y).
    pub open spec fn pixel_index(&self, x: int, y: int) -> int {
        y * self.width + x
    }

    /// The stored depth at the pixel (x, y).
    pub open spec fn depth_at(&self, x: int, y: int) -> int {
        self.depth_buffer@[self.pixel_index(x, y)] as int
    }

    /// The stored color at the pixel (x, y).
    pub open spec fn color_at(&self, x: int, y: int) -> Color {
        self.color_buffer@[self.pixel_index(x, y)]
    }

    /// The dimensions and the two configured colors are unchanged.
    pub open spec fn same_config(&self, o: &Framebuffer) -> bool {
        &&& self.width == o.width
        &&& self.height == o.height
        &&& self.background_color == o.background_color
        &&& self.current_color == o.current_color
    }

    /// A buffer of the given size, black background, white draw color,
    /// every pixel at the background color and infinite depth.
    pub fn new(width: usize, height: usize) -> (r: Framebuffer)
        requires
            width <= MAX_SURFACE_SIDE,
            height <= MAX_SURFACE_SIDE,
        ensures
            r.wf(),
            r.width == width,
            r.height == height,
            r.background_color == (Color { r: 0u8, g: 0u8, b: 0u8 }),
            r.current_color == (Color { r: 255u8, g: 255u8, b: 255u8 }),
            forall|i: int| 0 <= i < width * height ==> r.depth_buffer@[i] == DEPTH_INFINITY,
            forall|i: int| 0 <= i < width * height ==> r.color_buffer@[i] == r.background_color,
    {
        let background_color = Color { r: 0, g: 0, b: 0 };
        proof {
            assert(width * height <= 0x40000000) by (nonlinear_arith)
                requires
                    width <= 32768,
                    height <= 32768,
            ;
        }
        let n = width * height;
        let mut color_buffer: Vec<Color> = Vec::new();
        let mut depth_buffer: Vec<i64> = Vec::new();
        let mut i: usize = 0;
        while i < n
            invariant
                i <= n,
                color_buffer@.len() == i,
                depth_buffer@.len() == i,
                forall|k: int| 0 <= k < i ==> color_buffer@[k] == background_color,
                forall|k: int| 0 <= k < i ==> depth_buffer@[k] == DEPTH_INFINITY,
            decreases n - i,
        {
            color_buffer.push(background_color);
            depth_buffer.push(DEPTH_INFINITY);
            i = i + 1;
        }
        Framebuffer {
            width,
            height,
            color_buffer,
            depth_buffer,
            background_color,
            current_color: Color { r: 255, g: 255, b: 255 },
        }
    }

    /// Reset the color surface to the background color and the depth
    /// surface to infinity.
    pub fn clear(&mut self)
        requires
            old(self).wf(),
        ensures
            final(self).wf(),
            final(self).same_config(old(self)),
            forall|i: int|
                0 <= i < final(self).width * final(self).height
                    ==> final(self).depth_buffer@[i] == DEPTH_INFINITY,
            forall|i: int|
                0 <= i < final(self).width * final(self).height
                    ==> final(self).color_buffer@[i] == final(self).background_color,
    {
        let ghost fb0 = *self;
        proof {
            assert(self.width * self.height <= 0x40000000) by (nonlinear_arith)
                requires
                    self.width <= 32768,
                    self.height <= 32768,
            ;
        }
        let n = self.width * self.height;
        let mut i: usize = 0;
        while i < n
            invariant
                i <= n,
                self.wf(),
                self.same_config(&fb0),
                n == self.width * self.height,
                forall|k: int| 0 <= k < i ==> self.depth_buffer@[k] == DEPTH_INFINITY,
                forall|k: int| 0 <= k < i ==> self.color_buffer@[k] == self.background_color,
            decreases n - i,
        {
            let bg = self.background_color;
            self.color_buffer[i] = bg;
            self.depth_buffer[i] = DEPTH_INFINITY;
            i = i + 1;
        }
    }

    /// Write the current draw color at (x, y) with no depth test; outside
    /// the surface this is a no-op.
    pub fn set_pixel(&mut self, x: i32, y: i32)
        requires
            old(self).wf(),
        ensures
            final(self).wf(),
            final(self).same_config(old(self)),
            final(self).depth_buffer@ == old(self).depth_buffer@,
            old(self).in_bounds(x as int, y as int) ==> final(self).color_buffer@
                == old(self).color_buffer@.update(
                old(self).pixel_index(x as int, y as int),
                old(self).current_color,
            ),
            !old(self).in_bounds(x as int, y as int) ==> final(self).color_buffer@ == old(
                self,
            ).color_buffer@,
    {
        if x >= 0 && (x as usize) < self.width && y >= 0 && (y as usize) < self.height {
            proof {
                assert(0 <= (y as int) * (self.width as int) + (x as int) < (self.width as int)
                    * (self.height as int) <= 0x40000000) by (nonlinear_arith)
                    requires
                        0 <= (x as int) && (x as int) < (self.width as int),
                        0 <= (y as int) && (y as int) < (self.height as int),
                        self.width <= 32768,
                        self.height <= 32768,
                ;
            }
            let index = (y as usize) * self.width + (x as usize);
            let c = self.current_color;
            self.color_buffer[index] = c;
        }
    }

    /// The depth-tested pixel write: inside the surface, and only when the
    /// incoming depth is strictly nearer than the stored one, store the
    /// depth and the quantized color; otherwise change nothing. The stored
    /// depth at every pixel never increases.
    pub fn point(&mut self, x: i32, y: i32, color: Vec3, depth: i64)
        requires
            old(self).wf(),
        ensures
            final(self).wf(),
            final(self).same_config(old(self)),
            (old(self).in_bounds(x as int, y as int) && depth < old(self).depth_at(
                x as int,
                y as int,
            )) ==> {
                &&& final(self).depth_buffer@ == old(self).depth_buffer@.update(
                    old(self).pixel_index(x as int, y as int),
                    depth,
                )
                &&& final(self).color_buffer@ == old(self).color_buffer@.update(
                    old(self).pixel_index(x as int, y as int),
                    quantize_color_s(color@),
                )
            },
            !(old(self).in_bounds(x as int, y as int) && depth < old(self).depth_at(
                x as int,
                y as int,
            )) ==> {
                &&& final(self).depth_buffer@ == old(self).depth_buffer@
                &&& final(self).color_buffer@ == old(self).color_buffer@
            },
            forall|i: int|
                0 <= i < old(self).depth_buffer@.len() ==> final(self).depth_buffer@[i] <= old(
                    self,
                ).depth_buffer@[i],
            forall|i: int|
                0 <= i < old(self).color_buffer@.len() && final(self).color_buffer@[i] != old(
                    self,
                ).color_buffer@[i] ==> final(self).depth_buffer@[i] < old(self).depth_buffer@[i],
            (final(self).depth_buffer@, final(self).color_buffer@) == point_s(
                old(self).depth_buffer@,
                old(self).color_buffer@,
                old(self).width as int,
                old(self).height as int,
                x as int,
                y as int,
                color@,
                depth,
            ),
    {
        if x >= 0 && (x as usize) < self.width && y >= 0 && (y as usize) < self.height {
            proof {
                assert(0 <= (y as int) * (self.width as int) + (x as int) < (self.width as int)
                    * (self.height as int) <= 0x40000000) by (nonlinear_arith)
                    requires
                        0 <= (x as int) && (x as int) < (self.width as int),
                        0 <= (y as int) && (y as int) < (self.height as int),
                        self.width <= 32768,
                        self.height <= 32768,
                ;
            }
            let index = (y as usize) * self.width + (x as usize);
            if depth < self.depth_buffer[index] {
                self.depth_buffer[index] = depth;
                let pixel_color = quantize_color(&color);
                self.color_buffer[index] = pixel_color;
            }
        }
    }

    /// The stored color at (x, y), or nothing outside the surface.
    pub fn get_pixel_color(&self, x: i32, y: i32) -> (r: Option<Color>)
        requires
            self.wf(),
        ensures
            self.in_bounds(x as int, y as int) ==> r == Some(
                self.color_at(x as int, y as int),
            ),
            !self.in_bounds(x as int, y as int) ==> r is None,
    {
        if x >= 0 && (x as usize) < self.width && y >= 0 && (y as usize) < self.height {
            proof {
                assert(0 <= (y as int) * (self.width as int) + (x as int) < (self.width as int)
                    * (self.height as int) <= 0x40000000) by (nonlinear_arith)
                    requires
                        0 <= (x as int) && (x as int) < (self.width as int),
                        0 <= (y as int) && (y as int) < (self.height as int),
                        self.width <= 32768,
                        self.height <= 32768,
                ;
            }
            let index = (y as usize) * self.width + (x as usize);
            Some(self.color_buffer[index])
        } else {
            None
        }
    }

    /// Replace the background color used by the next clear.
    pub fn set_background_color(&mut self, color: Color)
        ensures
            *final(self) == (Framebuffer { background_color: color, ..*old(self) }),
    {
        self.background_color = color;
    }

    /// Replace the current draw color used by `set_pixel`.
    pub fn set_current_color(&mut self, color: Color)
        ensures
            *final(self) == (Framebuffer { current_color: color, ..*old(self) }),
    {
        self.current_color = color;
    }

    /// The finished color surface, row major from the top-left pixel, for
    /// the display collaborator to present.
    pub fn color_data(&self) -> (r: &Vec<Color>)
        ensures
            r@ == self.color_buffer@,
    {
        &self.color_buffer
    }

    /// Integer line rasterization between two screen points; every plotted
    /// pixel is depth-tested with the depth of the first endpoint (a
    /// documented overlay limitation: depth is not interpolated along the
    /// line). Endpoints are clamped to a band around the surface and the
    /// walk carries an iteration budget that covers every clamped pair, so
    /// the walk always ends.
    pub fn draw_line(&mut self, p0: Vec3, p1: Vec3, color: Vec3)
        requires
            old(self).wf(),
        ensures
            final(self).wf(),
            final(self).same_config(old(self)),
            forall|i: int|
                0 <= i < old(self).depth_buffer@.len() ==> final(self).depth_buffer@[i] <= old(
                    self,
                ).depth_buffer@[i],
            forall|i: int|
                0 <= i < old(self).color_buffer@.len() && final(self).color_buffer@[i] != old(
                    self,
                ).color_buffer@[i] ==> final(self).depth_buffer@[i] < old(self).depth_buffer@[i],
            (final(self).depth_buffer@, final(self).color_buffer@) == draw_line_s(
                old(self).depth_buffer@,
                old(self).color_buffer@,
                old(self).width as int,
                old(self).height as int,
                p0@,
                p1@,
                color@,
            ),
    {
        let ghost fb0 = *self;
        let mut x0: i64 = clamp_units(p0.x);
        let mut y0: i64 = clamp_units(p0.y);
        let x1: i64 = clamp_units(p1.x);
        let y1: i64 = clamp_units(p1.y);

        let dx: i64 = if x1 >= x0 {
            x1 - x0
        } else {
            x0 - x1
        };
        let dy: i64 = if y1 >= y0 {
            y1 - y0
        } else {
            y0 - y1
        };
        let sx: i64 = if x0 < x1 {
            1
        } else {
            -1
        };
        let sy: i64 = if y0 < y1 {
            1
        } else {
            -1
        };
        let mut err: i64 = dx - dy;
        let mut fuel: i64 = dx + dy + 1;

        while fuel > 0
            invariant
                self.wf(),
                fb0.wf(),
                self.same_config(&fb0),
                self.depth_buffer@.len() == fb0.depth_buffer@.len(),
                self.color_buffer@.len() == fb0.color_buffer@.len(),
                0 <= dx <= 131072,
                0 <= dy <= 131072,
                0 <= fuel <= 262145,
                -65536 <= x0 <= 65536,
                -65536 <= y0 <= 65536,
                -65536 <= x1 <= 65536,
                -65536 <= y1 <= 65536,
                sx == 1 || sx == -1,
                sx == 1 ==> x0 <= x1,
                sx == -1 ==> x1 <= x0,
                sy == 1 || sy == -1,
                sy == 1 ==> y0 <= y1,
                sy == -1 ==> y1 <= y0,
                mag_s(err as int) <= 262144 + (262145 - fuel) * 262144,
                line_walk_s(
                    self.depth_buffer@,
                    self.color_buffer@,
                    fb0.width as int,
                    fb0.height as int,
                    x0 as int,
                    y0 as int,
                    x1 as int,
                    y1 as int,
                    dx as int,
                    dy as int,
                    sx as int,
                    sy as int,
                    err as int,
                    fuel as int,
                    color@,
                    p0.z,
                ) == draw_line_s(
                    fb0.depth_buffer@,
                    fb0.color_buffer@,
                    fb0.width as int,
                    fb0.height as int,
                    p0@,
                    p1@,
                    color@,
                ),
                forall|i: int|
                    0 <= i < fb0.depth_buffer@.len() ==> self.depth_buffer@[i]
                        <= fb0.depth_buffer@[i],
                forall|i: int|
                    0 <= i < fb0.color_buffer@.len() && self.color_buffer@[i]
                        != fb0.color_buffer@[i] ==> self.depth_buffer@[i] < fb0.depth_buffer@[i],
            decreases fuel,
        {
            self.point(x0 as i32, y0 as i32, color, p0.z);
            if x0 == x1 && y0 == y1 {
                fuel = 0;
            } else {
                let e2: i64 = 2 * err;
                if e2 > -dy && x0 != x1 {
                    err = err - dy;
                    x0 = x0 + sx;
                }
                if e2 < dx && y0 != y1 {
                    err = err + dx;
                    y0 = y0 + sy;
                }
                fuel = fuel - 1;
            }
        }
    }
}

/// Whole-unit value of a fixed-point coordinate, clamped to a band around
/// any representable surface.
fn clamp_units(v: i64) -> (r: i64)
    ensures
        r == fx_clamp_s(fx_floor_s(v as int), -65536, 65536),
        -65536 <= r <= 65536,
{
    let u = crate::fixed::fx_floor_units(v);
    fx_clamp(u, -65536, 65536)
}

} // verus!
