//! Fixed-point three- and four-component vectors.

use vstd::prelude::*;
use crate::fixed::{
    fx_add, fx_sub, fx_mul, fx_div, fx_sqrt, FX_SAT,
    fx_add_s, fx_sub_s, fx_mul_s, fx_div_s, fx_sqrt_s,
};

verus! {

/// A vector of three fixed-point scalars.
#[derive(Clone, Copy, PartialEq, Eq, Structural, Debug)]
pub struct Vec3 {
    pub x: i64,
    pub y: i64,
    pub z: i64,
}

/// The mathematical value of a `Vec3`.
pub struct Vec3s {
    pub x: int,
    pub y: int,
    pub z: int,
}

impl View for Vec3 {
    type V = Vec3s;

    open spec fn view(&self) -> Vec3s {
        Vec3s { x: self.x as int, y: self.y as int, z: self.z as int }
    }
}

/// A vector of two fixed-point scalars, the texture coordinate pair.
#[derive(Clone, Copy, PartialEq, Eq, Structural, Debug)]
pub struct Vec2 {
    pub x: i64,
    pub y: i64,
}

/// The mathematical value of a `Vec2`.
pub struct Vec2s {
    pub x: int,
    pub y: int,
}

impl View for Vec2 {
    type V = Vec2s;

    open spec fn view(&self) -> Vec2s {
        Vec2s { x: self.x as int, y: self.y as int }
    }
}

/// A homogeneous vector of four fixed-point scalars.
#[derive(Clone, Copy, PartialEq, Eq, Structural, Debug)]
pub struct Vec4 {
    pub x: i64,
    pub y: i64,
    pub z: i64,
    pub w: i64,
}

/// The mathematical value of a `Vec4`.
pub struct Vec4s {
    pub x: int,
    pub y: int,
    pub z: int,
    pub w: int,
}

impl View for Vec4 {
    type V = Vec4s;

    open spec fn view(&self) -> Vec4s {
        Vec4s { x: self.x as int, y: self.y as int, z: self.z as int, w: self.w as int }
    }
}

/// Component-wise sum.
pub open spec fn v3_add_s(a: Vec3s, b: Vec3s) -> Vec3s {
    Vec3s { x: fx_add_s(a.x, b.x), y: fx_add_s(a.y, b.y), z: fx_add_s(a.z, b.z) }
}

/// Component-wise difference.
pub open spec fn v3_sub_s(a: Vec3s, b: Vec3s) -> Vec3s {
    Vec3s { x: fx_sub_s(a.x, b.x), y: fx_sub_s(a.y, b.y), z: fx_sub_s(a.z, b.z) }
}

/// Every component multiplied by one scalar.
pub open spec fn v3_scale_s(a: Vec3s, k: int) -> Vec3s {
    Vec3s { x: fx_mul_s(a.x, k), y: fx_mul_s(a.y, k), z: fx_mul_s(a.z, k) }
}

/// Inner product.
pub open spec fn v3_dot_s(a: Vec3s, b: Vec3s) -> int {
    fx_add_s(fx_add_s(fx_mul_s(a.x, b.x), fx_mul_s(a.y, b.y)), fx_mul_s(a.z, b.z))
}

/// Euclidean length.
pub open spec fn v3_length_s(a: Vec3s) -> int {
    fx_sqrt_s(v3_dot_s(a, a))
}

/// The unit vector in the direction of a; a zero-length vector passes
/// through unchanged (guarded fallback for numerical degeneracy).
pub open spec fn v3_normalize_s(a: Vec3s) -> Vec3s {
    let len = v3_length_s(a);
    if len == 0 {
        a
    } else {
        Vec3s { x: fx_div_s(a.x, len), y: fx_div_s(a.y, len), z: fx_div_s(a.z, len) }
    }
}

impl Vec3 {
    /// A vector from its three components.
    pub fn new(x: i64, y: i64, z: i64) -> (r: Vec3)
        ensures
            r@ == (Vec3s { x: x as int, y: y as int, z: z as int }),
    {
        Vec3 { x, y, z }
    }

    /// Component-wise sum.
    pub fn vadd(&self, o: &Vec3) -> (r: Vec3)
        ensures
            r@ == v3_add_s(self@, o@),
            in_band(r@),
    {
        Vec3 { x: fx_add(self.x, o.x), y: fx_add(self.y, o.y), z: fx_add(self.z, o.z) }
    }

    /// Component-wise difference.
    pub fn vsub(&self, o: &Vec3) -> (r: Vec3)
        ensures
            r@ == v3_sub_s(self@, o@),
            in_band(r@),
    {
        Vec3 { x: fx_sub(self.x, o.x), y: fx_sub(self.y, o.y), z: fx_sub(self.z, o.z) }
    }

    /// Every component multiplied by one scalar.
    pub fn vscale(&self, k: i64) -> (r: Vec3)
        ensures
            r@ == v3_scale_s(self@, k as int),
            in_band(r@),
    {
        Vec3 { x: fx_mul(self.x, k), y: fx_mul(self.y, k), z: fx_mul(self.z, k) }
    }

    /// Inner product.
    pub fn vdot(&self, o: &Vec3) -> (r: i64)
        ensures
            r == v3_dot_s(self@, o@),
            -FX_SAT <= r <= FX_SAT,
    {
        fx_add(fx_add(fx_mul(self.x, o.x), fx_mul(self.y, o.y)), fx_mul(self.z, o.z))
    }

    /// Euclidean length.
    pub fn vlength(&self) -> (r: i64)
        ensures
            r == v3_length_s(self@),
            0 <= r <= FX_SAT,
    {
        fx_sqrt(self.vdot(self))
    }

    /// The unit vector in this direction; a zero-length vector passes
    /// through unchanged.
    pub fn vnormalize(&self) -> (r: Vec3)
        ensures
            r@ == v3_normalize_s(self@),
    {
        let len = self.vlength();
        if len == 0 {
            *self
        } else {
            Vec3 { x: fx_div(self.x, len), y: fx_div(self.y, len), z: fx_div(self.z, len) }
        }
    }
}

/// Cross product.
pub open spec fn v3_cross_s(a: Vec3s, b: Vec3s) -> Vec3s {
    Vec3s {
        x: fx_sub_s(fx_mul_s(a.y, b.z), fx_mul_s(a.z, b.y)),
        y: fx_sub_s(fx_mul_s(a.z, b.x), fx_mul_s(a.x, b.z)),
        z: fx_sub_s(fx_mul_s(a.x, b.y), fx_mul_s(a.y, b.x)),
    }
}

impl Vec3 {
    /// Cross product.
    pub fn vcross(&self, o: &Vec3) -> (r: Vec3)
        ensures
            r@ == v3_cross_s(self@, o@),
            in_band(r@),
    {
        Vec3 {
            x: fx_sub(fx_mul(self.y, o.z), fx_mul(self.z, o.y)),
            y: fx_sub(fx_mul(self.z, o.x), fx_mul(self.x, o.z)),
            z: fx_sub(fx_mul(self.x, o.y), fx_mul(self.y, o.x)),
        }
    }
}

/// Every component lies in the saturation band.
pub open spec fn in_band(a: Vec3s) -> bool {
    &&& -(FX_SAT as int) <= a.x <= FX_SAT as int
    &&& -(FX_SAT as int) <= a.y <= FX_SAT as int
    &&& -(FX_SAT as int) <= a.z <= FX_SAT as int
}

} // verus!
