//! The data that flows through the pipeline: vertices, the per-draw
//! uniform state, the light, and the per-pixel fragment.

use vstd::prelude::*;
use crate::vec3::{Vec2, Vec2s, Vec3, Vec3s};
use crate::matrix::{Mat4, Mat4s};

verus! {

/// One mesh vertex: the object-space attributes set by the loader, and the
/// derived fields that the vertex stage fills in.
#[derive(Clone, Copy, PartialEq, Eq, Structural, Debug)]
pub struct Vertex {
    pub position: Vec3,
    pub normal: Vec3,
    pub tex_coords: Vec2,
    pub color: Vec3,
    pub transformed_position: Vec3,
    pub transformed_normal: Vec3,
}

/// The mathematical value of a `Vertex`.
pub struct Vertexs {
    pub position: Vec3s,
    pub normal: Vec3s,
    pub tex_coords: Vec2s,
    pub color: Vec3s,
    pub transformed_position: Vec3s,
    pub transformed_normal: Vec3s,
}

impl View for Vertex {
    type V = Vertexs;

    open spec fn view(&self) -> Vertexs {
        Vertexs {
            position: self.position@,
            normal: self.normal@,
            tex_coords: self.tex_coords@,
            color: self.color@,
            transformed_position: self.transformed_position@,
            transformed_normal: self.transformed_normal@,
        }
    }
}

impl Vertex {
    /// A vertex from its object-space attributes; the derived fields start
    /// at zero until the vertex stage fills them.
    pub fn new(position: Vec3, normal: Vec3, tex_coords: Vec2, color: Vec3) -> (r: Vertex)
        ensures
            r.position == position,
            r.normal == normal,
            r.tex_coords == tex_coords,
            r.color == color,
            r.transformed_position == (Vec3 { x: 0i64, y: 0i64, z: 0i64 }),
            r.transformed_normal == (Vec3 { x: 0i64, y: 0i64, z: 0i64 }),
    {
        Vertex {
            position,
            normal,
            tex_coords,
            color,
            transformed_position: Vec3 { x: 0, y: 0, z: 0 },
            transformed_normal: Vec3 { x: 0, y: 0, z: 0 },
        }
    }
}

/// The per-draw context, passed explicitly through every stage: the four
/// transform matrices, the clock, and the material and render selectors.
#[derive(Clone, Copy, PartialEq, Eq, Structural, Debug)]
pub struct Uniforms {
    pub model_matrix: Mat4,
    pub view_matrix: Mat4,
    pub projection_matrix: Mat4,
    pub viewport_matrix: Mat4,
    pub time: i64,
    pub dt: i64,
    pub planet_type: i32,
    pub render_type: i32,
}

/// The mathematical value of a `Uniforms`.
pub struct Uniformss {
    pub model_matrix: Mat4s,
    pub view_matrix: Mat4s,
    pub projection_matrix: Mat4s,
    pub viewport_matrix: Mat4s,
    pub time: int,
    pub dt: int,
    pub planet_type: int,
    pub render_type: int,
}

impl View for Uniforms {
    type V = Uniformss;

    open spec fn view(&self) -> Uniformss {
        Uniformss {
            model_matrix: self.model_matrix@,
            view_matrix: self.view_matrix@,
            projection_matrix: self.projection_matrix@,
            viewport_matrix: self.viewport_matrix@,
            time: self.time as int,
            dt: self.dt as int,
            planet_type: self.planet_type as int,
            render_type: self.render_type as int,
        }
    }
}

/// The single point light of a frame.
#[derive(Clone, Copy, PartialEq, Eq, Structural, Debug)]
pub struct Light {
    pub position: Vec3,
}

impl Light {
    /// A light at the given position.
    pub fn new(position: Vec3) -> (r: Light)
        ensures
            r.position == position,
    {
        Light { position }
    }
}

/// The per-pixel unit of shading work: the screen-space position (whole
/// pixel coordinates scaled by FX_ONE), the interpolated object-space
/// position used as the noise coordinate, the interpolated normal, and the
/// depth value for the z test.
#[derive(Clone, Copy, PartialEq, Eq, Structural, Debug)]
pub struct Fragment {
    pub position: Vec3,
    pub world_position: Vec3,
    pub normal: Vec3,
    pub depth: i64,
}

/// The mathematical value of a `Fragment`.
pub struct Fragments {
    pub position: Vec3s,
    pub world_position: Vec3s,
    pub normal: Vec3s,
    pub depth: int,
}

impl View for Fragment {
    type V = Fragments;

    open spec fn view(&self) -> Fragments {
        Fragments {
            position: self.position@,
            world_position: self.world_position@,
            normal: self.normal@,
            depth: self.depth as int,
        }
    }
}

} // verus!
