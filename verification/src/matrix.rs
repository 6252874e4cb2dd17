//! The transform pipeline: 4x4 fixed-point matrices and the pure, stateless
//! builders for the model, view, projection and viewport transforms.
//!
//! Conventions, fixed once and kept consistent with culling and winding:
//! right-handed view space looking down the negative z axis, counter-clockwise
//! front faces in screen space, and a viewport that flips the vertical axis to
//! the row-major top-left origin of the color surface and maps device depth
//! from [-1, 1] onto [0, 200] in fixed point.

use vstd::prelude::*;
use crate::fixed::{
    fx_add, fx_sub, fx_mul, fx_div, FX_ONE, FX_HALF, FX_SAT,
    fx_add_s, fx_sub_s, fx_mul_s, fx_div_s,
};
use crate::vec3::{Vec3, Vec3s, Vec4, Vec4s, v3_sub_s, v3_normalize_s, v3_cross_s, v3_dot_s};
use crate::trig::{fx_sin, fx_cos, fx_sin_s, fx_cos_s};

verus! {

/// Half of the viewport depth range: device depth [-1, 1] maps onto
/// [0, 2 * FX_DEPTH_HALF], i.e. [0, 200] in real units.
pub const FX_DEPTH_HALF: i64 = 6553600;

/// A 4x4 matrix of fixed-point scalars, row major: `mRC` is row R, column C.
#[derive(Clone, Copy, PartialEq, Eq, Structural, Debug)]
pub struct Mat4 {
    pub m00: i64, pub m01: i64, pub m02: i64, pub m03: i64,
    pub m10: i64, pub m11: i64, pub m12: i64, pub m13: i64,
    pub m20: i64, pub m21: i64, pub m22: i64, pub m23: i64,
    pub m30: i64, pub m31: i64, pub m32: i64, pub m33: i64,
}

/// The mathematical value of a `Mat4`.
pub struct Mat4s {
    pub m00: int, pub m01: int, pub m02: int, pub m03: int,
    pub m10: int, pub m11: int, pub m12: int, pub m13: int,
    pub m20: int, pub m21: int, pub m22: int, pub m23: int,
    pub m30: int, pub m31: int, pub m32: int, pub m33: int,
}

impl View for Mat4 {
    type V = Mat4s;

    open spec fn view(&self) -> Mat4s {
        Mat4s {
            m00: self.m00 as int, m01: self.m01 as int, m02: self.m02 as int, m03: self.m03 as int,
            m10: self.m10 as int, m11: self.m11 as int, m12: self.m12 as int, m13: self.m13 as int,
            m20: self.m20 as int, m21: self.m21 as int, m22: self.m22 as int, m23: self.m23 as int,
            m30: self.m30 as int, m31: self.m31 as int, m32: self.m32 as int, m33: self.m33 as int,
        }
    }
}

/// Fixed-point inner product of a matrix row and a column.
pub open spec fn dot4_s(a0: int, a1: int, a2: int, a3: int, b0: int, b1: int, b2: int, b3: int) -> int {
    fx_add_s(fx_add_s(fx_add_s(fx_mul_s(a0, b0), fx_mul_s(a1, b1)), fx_mul_s(a2, b2)), fx_mul_s(a3, b3))
}

/// A matrix applied to a homogeneous vector.
pub open spec fn mats_apply(m: Mat4s, v: Vec4s) -> Vec4s {
    Vec4s {
        x: dot4_s(m.m00, m.m01, m.m02, m.m03, v.x, v.y, v.z, v.w),
        y: dot4_s(m.m10, m.m11, m.m12, m.m13, v.x, v.y, v.z, v.w),
        z: dot4_s(m.m20, m.m21, m.m22, m.m23, v.x, v.y, v.z, v.w),
        w: dot4_s(m.m30, m.m31, m.m32, m.m33, v.x, v.y, v.z, v.w),
    }
}

/// The product of two matrices.
pub open spec fn mats_mul(a: Mat4s, b: Mat4s) -> Mat4s {
    Mat4s {
        m00: dot4_s(a.m00, a.m01, a.m02, a.m03, b.m00, b.m10, b.m20, b.m30),
        m01: dot4_s(a.m00, a.m01, a.m02, a.m03, b.m01, b.m11, b.m21, b.m31),
        m02: dot4_s(a.m00, a.m01, a.m02, a.m03, b.m02, b.m12, b.m22, b.m32),
        m03: dot4_s(a.m00, a.m01, a.m02, a.m03, b.m03, b.m13, b.m23, b.m33),
        m10: dot4_s(a.m10, a.m11, a.m12, a.m13, b.m00, b.m10, b.m20, b.m30),
        m11: dot4_s(a.m10, a.m11, a.m12, a.m13, b.m01, b.m11, b.m21, b.m31),
        m12: dot4_s(a.m10, a.m11, a.m12, a.m13, b.m02, b.m12, b.m22, b.m32),
        m13: dot4_s(a.m10, a.m11, a.m12, a.m13, b.m03, b.m13, b.m23, b.m33),
        m20: dot4_s(a.m20, a.m21, a.m22, a.m23, b.m00, b.m10, b.m20, b.m30),
        m21: dot4_s(a.m20, a.m21, a.m22, a.m23, b.m01, b.m11, b.m21, b.m31),
        m22: dot4_s(a.m20, a.m21, a.m22, a.m23, b.m02, b.m12, b.m22, b.m32),
        m23: dot4_s(a.m20, a.m21, a.m22, a.m23, b.m03, b.m13, b.m23, b.m33),
        m30: dot4_s(a.m30, a.m31, a.m32, a.m33, b.m00, b.m10, b.m20, b.m30),
        m31: dot4_s(a.m30, a.m31, a.m32, a.m33, b.m01, b.m11, b.m21, b.m31),
        m32: dot4_s(a.m30, a.m31, a.m32, a.m33, b.m02, b.m12, b.m22, b.m32),
        m33: dot4_s(a.m30, a.m31, a.m32, a.m33, b.m03, b.m13, b.m23, b.m33),
    }
}

/// The identity matrix.
pub open spec fn mats_identity() -> Mat4s {
    Mat4s {
        m00: FX_ONE as int, m01: 0, m02: 0, m03: 0,
        m10: 0, m11: FX_ONE as int, m12: 0, m13: 0,
        m20: 0, m21: 0, m22: FX_ONE as int, m23: 0,
        m30: 0, m31: 0, m32: 0, m33: FX_ONE as int,
    }
}

/// A translation by t.
pub open spec fn mats_translation(t: Vec3s) -> Mat4s {
    Mat4s {
        m00: FX_ONE as int, m01: 0, m02: 0, m03: t.x,
        m10: 0, m11: FX_ONE as int, m12: 0, m13: t.y,
        m20: 0, m21: 0, m22: FX_ONE as int, m23: t.z,
        m30: 0, m31: 0, m32: 0, m33: FX_ONE as int,
    }
}

/// A uniform scale by k.
pub open spec fn mats_scaling(k: int) -> Mat4s {
    Mat4s {
        m00: k, m01: 0, m02: 0, m03: 0,
        m10: 0, m11: k, m12: 0, m13: 0,
        m20: 0, m21: 0, m22: k, m23: 0,
        m30: 0, m31: 0, m32: 0, m33: FX_ONE as int,
    }
}

/// A rotation about the x axis by angle a.
pub open spec fn mats_rotation_x(a: int) -> Mat4s {
    let c = fx_cos_s(a);
    let s = fx_sin_s(a);
    Mat4s {
        m00: FX_ONE as int, m01: 0, m02: 0, m03: 0,
        m10: 0, m11: c, m12: -s, m13: 0,
        m20: 0, m21: s, m22: c, m23: 0,
        m30: 0, m31: 0, m32: 0, m33: FX_ONE as int,
    }
}

/// A rotation about the y axis by angle a.
pub open spec fn mats_rotation_y(a: int) -> Mat4s {
    let c = fx_cos_s(a);
    let s = fx_sin_s(a);
    Mat4s {
        m00: c, m01: 0, m02: s, m03: 0,
        m10: 0, m11: FX_ONE as int, m12: 0, m13: 0,
        m20: -s, m21: 0, m22: c, m23: 0,
        m30: 0, m31: 0, m32: 0, m33: FX_ONE as int,
    }
}

/// A rotation about the z axis by angle a.
pub open spec fn mats_rotation_z(a: int) -> Mat4s {
    let c = fx_cos_s(a);
    let s = fx_sin_s(a);
    Mat4s {
        m00: c, m01: -s, m02: 0, m03: 0,
        m10: s, m11: c, m12: 0, m13: 0,
        m20: 0, m21: 0, m22: FX_ONE as int, m23: 0,
        m30: 0, m31: 0, m32: 0, m33: FX_ONE as int,
    }
}

/// The model matrix: scale innermost, then the euler rotation
/// (x, then y, then z), then the translation.
pub open spec fn mats_model(translation: Vec3s, scale: int, rotation: Vec3s) -> Mat4s {
    let r = mats_mul(mats_rotation_z(rotation.z), mats_mul(mats_rotation_y(rotation.y), mats_rotation_x(rotation.x)));
    mats_mul(mats_translation(translation), mats_mul(r, mats_scaling(scale)))
}

/// The look-at view matrix from its orthonormal basis; identity when the
/// eye and the target coincide (the guarded degenerate case).
pub open spec fn mats_view(eye: Vec3s, center: Vec3s, up: Vec3s) -> Mat4s {
    let f = v3_sub_s(eye, center);
    if f.x == 0 && f.y == 0 && f.z == 0 {
        mats_identity()
    } else {
        let zb = v3_normalize_s(f);
        let xb = v3_normalize_s(v3_cross_s(up, zb));
        let yb = v3_cross_s(zb, xb);
        Mat4s {
            m00: xb.x, m01: xb.y, m02: xb.z, m03: -v3_dot_s(xb, eye),
            m10: yb.x, m11: yb.y, m12: yb.z, m13: -v3_dot_s(yb, eye),
            m20: zb.x, m21: zb.y, m22: zb.z, m23: -v3_dot_s(zb, eye),
            m30: 0, m31: 0, m32: 0, m33: FX_ONE as int,
        }
    }
}

/// The right-handed perspective projection. Division by a degenerate
/// denominator (zero sine of the half angle, zero aspect, equal planes)
/// yields zero entries rather than failing.
pub open spec fn mats_projection(fov: int, aspect: int, near: int, far: int) -> Mat4s {
    let half = fx_mul_s(fov, FX_HALF as int);
    let f = fx_div_s(fx_cos_s(half), fx_sin_s(half));
    Mat4s {
        m00: fx_div_s(f, aspect), m01: 0, m02: 0, m03: 0,
        m10: 0, m11: f, m12: 0, m13: 0,
        m20: 0, m21: 0, m22: fx_div_s(fx_add_s(far, near), fx_sub_s(near, far)),
        m23: fx_div_s(fx_mul_s(fx_add_s(far, far), near), fx_sub_s(near, far)),
        m30: 0, m31: 0, m32: -(FX_ONE as int), m33: 0,
    }
}

/// The viewport transform: device x and y in [-1, 1] onto the pixel
/// rectangle at (ox, oy) of size (width, height), with the vertical axis
/// flipped; device depth [-1, 1] onto [0, 2 * FX_DEPTH_HALF].
pub open spec fn mats_viewport(ox: int, oy: int, width: int, height: int) -> Mat4s {
    let hw = fx_mul_s(width, FX_HALF as int);
    let hh = fx_mul_s(height, FX_HALF as int);
    Mat4s {
        m00: hw, m01: 0, m02: 0, m03: fx_add_s(ox, hw),
        m10: 0, m11: -hh, m12: 0, m13: fx_add_s(oy, hh),
        m20: 0, m21: 0, m22: FX_DEPTH_HALF as int, m23: FX_DEPTH_HALF as int,
        m30: 0, m31: 0, m32: 0, m33: FX_ONE as int,
    }
}

/// Fixed-point inner product of a matrix row and a column.
fn dot4(a0: i64, a1: i64, a2: i64, a3: i64, b0: i64, b1: i64, b2: i64, b3: i64) -> (r: i64)
    ensures
        r == dot4_s(a0 as int, a1 as int, a2 as int, a3 as int, b0 as int, b1 as int, b2 as int, b3 as int),
        -FX_SAT <= r <= FX_SAT,
{
    fx_add(fx_add(fx_add(fx_mul(a0, b0), fx_mul(a1, b1)), fx_mul(a2, b2)), fx_mul(a3, b3))
}

/// A matrix applied to a homogeneous vector.
pub fn multiply_matrix_vector4(m: &Mat4, v: &Vec4) -> (r: Vec4)
    ensures
        r@ == mats_apply(m@, v@),
{
    Vec4 {
        x: dot4(m.m00, m.m01, m.m02, m.m03, v.x, v.y, v.z, v.w),
        y: dot4(m.m10, m.m11, m.m12, m.m13, v.x, v.y, v.z, v.w),
        z: dot4(m.m20, m.m21, m.m22, m.m23, v.x, v.y, v.z, v.w),
        w: dot4(m.m30, m.m31, m.m32, m.m33, v.x, v.y, v.z, v.w),
    }
}

/// The product of two matrices.
pub fn multiply_matrices(a: &Mat4, b: &Mat4) -> (r: Mat4)
    ensures
        r@ == mats_mul(a@, b@),
{
    Mat4 {
        m00: dot4(a.m00, a.m01, a.m02, a.m03, b.m00, b.m10, b.m20, b.m30),
        m01: dot4(a.m00, a.m01, a.m02, a.m03, b.m01, b.m11, b.m21, b.m31),
        m02: dot4(a.m00, a.m01, a.m02, a.m03, b.m02, b.m12, b.m22, b.m32),
        m03: dot4(a.m00, a.m01, a.m02, a.m03, b.m03, b.m13, b.m23, b.m33),
        m10: dot4(a.m10, a.m11, a.m12, a.m13, b.m00, b.m10, b.m20, b.m30),
        m11: dot4(a.m10, a.m11, a.m12, a.m13, b.m01, b.m11, b.m21, b.m31),
        m12: dot4(a.m10, a.m11, a.m12, a.m13, b.m02, b.m12, b.m22, b.m32),
        m13: dot4(a.m10, a.m11, a.m12, a.m13, b.m03, b.m13, b.m23, b.m33),
        m20: dot4(a.m20, a.m21, a.m22, a.m23, b.m00, b.m10, b.m20, b.m30),
        m21: dot4(a.m20, a.m21, a.m22, a.m23, b.m01, b.m11, b.m21, b.m31),
        m22: dot4(a.m20, a.m21, a.m22, a.m23, b.m02, b.m12, b.m22, b.m32),
        m23: dot4(a.m20, a.m21, a.m22, a.m23, b.m03, b.m13, b.m23, b.m33),
        m30: dot4(a.m30, a.m31, a.m32, a.m33, b.m00, b.m10, b.m20, b.m30),
        m31: dot4(a.m30, a.m31, a.m32, a.m33, b.m01, b.m11, b.m21, b.m31),
        m32: dot4(a.m30, a.m31, a.m32, a.m33, b.m02, b.m12, b.m22, b.m32),
        m33: dot4(a.m30, a.m31, a.m32, a.m33, b.m03, b.m13, b.m23, b.m33),
    }
}

/// The identity matrix.
pub fn create_identity_matrix() -> (r: Mat4)
    ensures
        r@ == mats_identity(),
{
    Mat4 {
        m00: FX_ONE, m01: 0, m02: 0, m03: 0,
        m10: 0, m11: FX_ONE, m12: 0, m13: 0,
        m20: 0, m21: 0, m22: FX_ONE, m23: 0,
        m30: 0, m31: 0, m32: 0, m33: FX_ONE,
    }
}

/// A translation by t.
fn create_translation_matrix(t: &Vec3) -> (r: Mat4)
    ensures
        r@ == mats_translation(t@),
{
    Mat4 {
        m00: FX_ONE, m01: 0, m02: 0, m03: t.x,
        m10: 0, m11: FX_ONE, m12: 0, m13: t.y,
        m20: 0, m21: 0, m22: FX_ONE, m23: t.z,
        m30: 0, m31: 0, m32: 0, m33: FX_ONE,
    }
}

/// A uniform scale by k.
fn create_scaling_matrix(k: i64) -> (r: Mat4)
    ensures
        r@ == mats_scaling(k as int),
{
    Mat4 {
        m00: k, m01: 0, m02: 0, m03: 0,
        m10: 0, m11: k, m12: 0, m13: 0,
        m20: 0, m21: 0, m22: k, m23: 0,
        m30: 0, m31: 0, m32: 0, m33: FX_ONE,
    }
}

/// A rotation about the x axis by angle a.
fn create_rotation_x(a: i64) -> (r: Mat4)
    ensures
        r@ == mats_rotation_x(a as int),
{
    let c = fx_cos(a);
    let s = fx_sin(a);
    Mat4 {
        m00: FX_ONE, m01: 0, m02: 0, m03: 0,
        m10: 0, m11: c, m12: -s, m13: 0,
        m20: 0, m21: s, m22: c, m23: 0,
        m30: 0, m31: 0, m32: 0, m33: FX_ONE,
    }
}

/// A rotation about the y axis by angle a.
fn create_rotation_y(a: i64) -> (r: Mat4)
    ensures
        r@ == mats_rotation_y(a as int),
{
    let c = fx_cos(a);
    let s = fx_sin(a);
    Mat4 {
        m00: c, m01: 0, m02: s, m03: 0,
        m10: 0, m11: FX_ONE, m12: 0, m13: 0,
        m20: -s, m21: 0, m22: c, m23: 0,
        m30: 0, m31: 0, m32: 0, m33: FX_ONE,
    }
}

/// A rotation about the z axis by angle a.
fn create_rotation_z(a: i64) -> (r: Mat4)
    ensures
        r@ == mats_rotation_z(a as int),
{
    let c = fx_cos(a);
    let s = fx_sin(a);
    Mat4 {
        m00: c, m01: -s, m02: 0, m03: 0,
        m10: s, m11: c, m12: 0, m13: 0,
        m20: 0, m21: 0, m22: FX_ONE, m23: 0,
        m30: 0, m31: 0, m32: 0, m33: FX_ONE,
    }
}

/// The model matrix: translate(position) * rotate(euler) * scale(factor).
pub fn create_model_matrix(translation: Vec3, scale: i64, rotation: Vec3) -> (r: Mat4)
    ensures
        r@ == mats_model(translation@, scale as int, rotation@),
{
    let rot = multiply_matrices(
        &create_rotation_z(rotation.z),
        &multiply_matrices(&create_rotation_y(rotation.y), &create_rotation_x(rotation.x)),
    );
    multiply_matrices(
        &create_translation_matrix(&translation),
        &multiply_matrices(&rot, &create_scaling_matrix(scale)),
    )
}

/// The look-at view matrix; the identity when the eye and the target
/// coincide.
pub fn create_view_matrix(eye: Vec3, center: Vec3, up: Vec3) -> (r: Mat4)
    ensures
        r@ == mats_view(eye@, center@, up@),
{
    let f = eye.vsub(&center);
    if f.x == 0 && f.y == 0 && f.z == 0 {
        create_identity_matrix()
    } else {
        let zb = f.vnormalize();
        let xb = up.vcross(&zb).vnormalize();
        let yb = zb.vcross(&xb);
        Mat4 {
            m00: xb.x, m01: xb.y, m02: xb.z, m03: -xb.vdot(&eye),
            m10: yb.x, m11: yb.y, m12: yb.z, m13: -yb.vdot(&eye),
            m20: zb.x, m21: zb.y, m22: zb.z, m23: -zb.vdot(&eye),
            m30: 0, m31: 0, m32: 0, m33: FX_ONE,
        }
    }
}

/// The perspective projection from the vertical field of view, the aspect
/// ratio and the near and far planes.
pub fn create_projection_matrix(fov: i64, aspect: i64, near: i64, far: i64) -> (r: Mat4)
    ensures
        r@ == mats_projection(fov as int, aspect as int, near as int, far as int),
{
    let half = fx_mul(fov, FX_HALF);
    let f = fx_div(fx_cos(half), fx_sin(half));
    Mat4 {
        m00: fx_div(f, aspect), m01: 0, m02: 0, m03: 0,
        m10: 0, m11: f, m12: 0, m13: 0,
        m20: 0, m21: 0, m22: fx_div(fx_add(far, near), fx_sub(near, far)),
        m23: fx_div(fx_mul(fx_add(far, far), near), fx_sub(near, far)),
        m30: 0, m31: 0, m32: -FX_ONE, m33: 0,
    }
}

/// The viewport transform onto the pixel rectangle at (ox, oy) of size
/// (width, height).
pub fn create_viewport_matrix(ox: i64, oy: i64, width: i64, height: i64) -> (r: Mat4)
    ensures
        r@ == mats_viewport(ox as int, oy as int, width as int, height as int),
{
    let hw = fx_mul(width, FX_HALF);
    let hh = fx_mul(height, FX_HALF);
    Mat4 {
        m00: hw, m01: 0, m02: 0, m03: fx_add(ox, hw),
        m10: 0, m11: -hh, m12: 0, m13: fx_add(oy, hh),
        m20: 0, m21: 0, m22: FX_DEPTH_HALF, m23: FX_DEPTH_HALF,
        m30: 0, m31: 0, m32: 0, m33: FX_ONE,
    }
}

} // verus!
