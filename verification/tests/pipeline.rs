//! End-to-end pipeline scenarios: noise, shading, rasterization, culling
//! and the full render passes.

use ship::fixed::{FX_HALF, FX_ONE};
use ship::framebuffer::{Color, Framebuffer};
use ship::geometry::{Fragment, Light, Uniforms, Vertex};
use ship::matrix::{
    create_identity_matrix, create_model_matrix, create_projection_matrix, create_view_matrix,
    create_viewport_matrix, multiply_matrix_vector4, Mat4,
};
use ship::noise::{fbm, hash, noise3d, turbulence};
use ship::raster::{assemble_triangles, barycentric_weights, triangle, Triangle};
use ship::render::{
    moon_fragment_color, render_body, render_moon, render_rings, ring_fragment_color,
    screen_cross_z,
};
use ship::shaders::{fragment_shader, lerp_color, set_planet_type, vertex_shader};
use ship::vec3::{Vec2, Vec3, Vec4};

fn screen_vertex(x: i64, y: i64, z: i64) -> Vertex {
    Vertex {
        position: Vec3 { x: 0, y: 0, z: FX_ONE },
        normal: Vec3 { x: 0, y: 0, z: FX_ONE },
        tex_coords: Vec2 { x: 0, y: 0 },
        color: Vec3 { x: FX_ONE, y: FX_ONE, z: FX_ONE },
        transformed_position: Vec3 { x: x * FX_ONE, y: y * FX_ONE, z },
        transformed_normal: Vec3 { x: 0, y: 0, z: FX_ONE },
    }
}

fn object_vertex(x: i64, y: i64, z: i64) -> Vertex {
    Vertex {
        position: Vec3 { x, y, z },
        normal: Vec3 { x: 0, y: 0, z: FX_ONE },
        tex_coords: Vec2 { x: 0, y: 0 },
        color: Vec3 { x: FX_ONE, y: FX_ONE, z: FX_ONE },
        transformed_position: Vec3 { x: 0, y: 0, z: 0 },
        transformed_normal: Vec3 { x: 0, y: 0, z: 0 },
    }
}

fn identity_uniforms() -> Uniforms {
    Uniforms {
        model_matrix: create_identity_matrix(),
        view_matrix: create_identity_matrix(),
        projection_matrix: create_identity_matrix(),
        viewport_matrix: create_identity_matrix(),
        time: 0,
        dt: 0,
        planet_type: 0,
        render_type: 0,
    }
}

fn light() -> Light {
    Light::new(Vec3 { x: 0, y: 10 * FX_ONE, z: 10 * FX_ONE })
}

#[test]
fn noise_is_deterministic_and_in_range() {
    let points = [
        Vec3 { x: 0, y: 0, z: 0 },
        Vec3 { x: FX_ONE, y: 0, z: 0 },
        Vec3 { x: -3 * FX_ONE + 777, y: 5 * FX_ONE, z: -FX_ONE / 3 },
        Vec3 { x: 123456, y: -654321, z: 42 },
    ];
    for p in points.iter() {
        let a = noise3d(p);
        let b = noise3d(p);
        assert_eq!(a, b);
        assert!(0 <= a && a < FX_ONE);
    }
}

#[test]
fn noise_exact_samples() {
    assert_eq!(noise3d(&Vec3 { x: 0, y: 0, z: 0 }), 0);
    assert_eq!(noise3d(&Vec3 { x: FX_ONE, y: 0, z: 0 }), 65415);
    assert_eq!(hash(0), 0);
    assert_eq!(hash(FX_ONE), 65415);
    assert_eq!(noise3d(&Vec3 { x: FX_HALF, y: FX_HALF, z: FX_HALF }), 39913);
}

#[test]
fn fractal_sums_are_deterministic_and_in_range() {
    let p = Vec3 { x: FX_HALF, y: FX_HALF, z: FX_HALF };
    assert_eq!(fbm(&p, 3), 28167);
    assert_eq!(fbm(&p, 3), fbm(&p, 3));
    assert_eq!(fbm(&p, 0), 0);
    let t = turbulence(&p, 5);
    assert_eq!(t, turbulence(&p, 5));
    assert!(0 <= t && t < FX_ONE);
    // value noise is non-negative, so the magnitude octaves agree with the
    // plain ones
    assert_eq!(turbulence(&p, 3), fbm(&p, 3));
}

#[test]
fn lerp_color_endpoints_are_exact() {
    let a = Vec3 { x: 19661, y: 9830, z: 6554 };
    let b = Vec3 { x: 45875, y: 39322, z: 32768 };
    assert_eq!(lerp_color(&a, &b, 0), a);
    assert_eq!(lerp_color(&a, &b, FX_ONE), b);
    // weights clamp into [0, 1]
    assert_eq!(lerp_color(&a, &b, -5 * FX_ONE), a);
    assert_eq!(lerp_color(&a, &b, 5 * FX_ONE), b);
    let mid = lerp_color(&a, &b, FX_HALF);
    assert!(a.x <= mid.x && mid.x <= b.x);
    assert!(a.y <= mid.y && mid.y <= b.y);
    assert!(a.z <= mid.z && mid.z <= b.z);
}

#[test]
fn fragment_shader_is_deterministic_and_clamped() {
    let fragment = Fragment {
        position: Vec3 { x: 10 * FX_ONE, y: 10 * FX_ONE, z: FX_ONE },
        world_position: Vec3 { x: FX_HALF, y: 20000, z: -30000 },
        normal: Vec3 { x: 0, y: 0, z: FX_ONE },
        depth: FX_ONE,
    };
    let uniforms = identity_uniforms();
    let c1 = fragment_shader(&fragment, &uniforms);
    let c2 = fragment_shader(&fragment, &uniforms);
    assert_eq!(c1, c2);
    assert_eq!(c1, Vec3 { x: 22065, y: 13509, z: 9123 });
    assert!(0 <= c1.x && c1.x <= FX_ONE);
    assert!(0 <= c1.y && c1.y <= FX_ONE);
    assert!(0 <= c1.z && c1.z <= FX_ONE);
}

#[test]
fn overlay_shaders_exact_samples() {
    let ring = ring_fragment_color(&Vec3 { x: 150733, y: 3277, z: 0 });
    assert_eq!(ring, Vec3 { x: 31969, y: 27354, z: 22739 });
    let moon = moon_fragment_color(&Vec3 { x: FX_HALF, y: FX_HALF, z: FX_HALF });
    assert_eq!(moon, Vec3 { x: 39321, y: 39321, z: 39321 });
    // deterministic across repeated calls
    assert_eq!(ring, ring_fragment_color(&Vec3 { x: 150733, y: 3277, z: 0 }));
    assert_eq!(moon, moon_fragment_color(&Vec3 { x: FX_HALF, y: FX_HALF, z: FX_HALF }));
    // the material tag travels in the uniforms; the legacy setter changes
    // nothing
    set_planet_type(3);
}

#[test]
fn fragment_shader_covers_every_material_tag() {
    let fragment = Fragment {
        position: Vec3 { x: 0, y: 0, z: FX_ONE },
        world_position: Vec3 { x: FX_HALF, y: FX_HALF, z: FX_HALF },
        normal: Vec3 { x: 0, y: 0, z: FX_ONE },
        depth: FX_ONE,
    };
    let mut uniforms = identity_uniforms();
    for tag in [0, 1, 2, 3, 4, 10].iter() {
        uniforms.planet_type = *tag;
        let c = fragment_shader(&fragment, &uniforms);
        assert!(0 <= c.x && c.x <= FX_ONE);
        assert!(0 <= c.y && c.y <= FX_ONE);
        assert!(0 <= c.z && c.z <= FX_ONE);
    }
    // unknown tags fall back to neutral gray, never fail
    uniforms.planet_type = 99;
    let c = fragment_shader(&fragment, &uniforms);
    assert_eq!(c, Vec3 { x: FX_HALF, y: FX_HALF, z: FX_HALF });
}

#[test]
fn barycentric_weights_inside_are_positive_and_sum_to_area() {
    let v0 = screen_vertex(10, 10, FX_ONE);
    let v1 = screen_vertex(20, 10, FX_ONE);
    let v2 = screen_vertex(10, 20, FX_ONE);
    let (w0, w1, w2, area) = barycentric_weights(&v0, &v1, &v2, 12, 12).unwrap();
    assert!(area > 0);
    assert!(w0 > 0 && w1 > 0 && w2 > 0);
    assert_eq!(w0 + w1 + w2, area);
    assert!(w0 < area && w1 < area && w2 < area);
    // a point outside has a weight of the opposite sign
    let (o0, o1, o2, _) = barycentric_weights(&v0, &v1, &v2, 0, 0).unwrap();
    assert!(o0 <= 0 || o1 <= 0 || o2 <= 0);
}

#[test]
fn winding_reversal_flips_the_cull_sign() {
    let v0 = screen_vertex(10, 10, FX_ONE);
    let v1 = screen_vertex(20, 10, FX_ONE);
    let v2 = screen_vertex(10, 20, FX_ONE);
    let ccw = Triangle { v0, v1, v2 };
    let cw = Triangle { v0, v1: v2, v2: v1 };
    let a = screen_cross_z(&ccw);
    let b = screen_cross_z(&cw);
    assert!(a > 0);
    assert_eq!(b, -a);
}

#[test]
fn rasterized_triangle_covers_its_interior() {
    let v0 = screen_vertex(10, 10, FX_ONE);
    let v1 = screen_vertex(20, 10, FX_ONE);
    let v2 = screen_vertex(10, 20, FX_ONE);
    let frags = triangle(&v0, &v1, &v2, &light());
    assert!(!frags.is_empty());
    let mut found_interior = false;
    let mut found_corner = false;
    for f in frags.iter() {
        let x = f.position.x / FX_ONE;
        let y = f.position.y / FX_ONE;
        assert!(10 <= x && x <= 20 && 10 <= y && y <= 20);
        assert_eq!(f.depth, FX_ONE);
        if x == 12 && y == 12 {
            found_interior = true;
        }
        if x == 10 && y == 10 {
            found_corner = true;
        }
    }
    assert!(found_interior);
    assert!(found_corner);
}

#[test]
fn degenerate_triangle_produces_no_fragments() {
    let v0 = screen_vertex(10, 10, FX_ONE);
    let frags = triangle(&v0, &v0, &v0, &light());
    assert!(frags.is_empty());
    let v1 = screen_vertex(12, 12, FX_ONE);
    let v2 = screen_vertex(14, 14, FX_ONE);
    let collinear = triangle(&v0, &v1, &v2, &light());
    assert!(collinear.is_empty());
}

#[test]
fn nearer_fragments_win_and_farther_ones_change_nothing() {
    let mut fb = Framebuffer::new(30, 30);
    let v0 = screen_vertex(10, 10, FX_ONE);
    let v1 = screen_vertex(20, 10, FX_ONE);
    let v2 = screen_vertex(10, 20, FX_ONE);

    let frags = triangle(&v0, &v1, &v2, &light());
    for f in frags.iter() {
        let x = (f.position.x / FX_ONE) as i32;
        let y = (f.position.y / FX_ONE) as i32;
        fb.point(x, y, Vec3 { x: FX_ONE, y: 0, z: 0 }, f.depth);
    }
    assert_eq!(fb.get_pixel_color(12, 12), Some(Color { r: 255, g: 0, b: 0 }));

    // the identical triangle at depth 2 fails the z test everywhere
    let f0 = screen_vertex(10, 10, 2 * FX_ONE);
    let f1 = screen_vertex(20, 10, 2 * FX_ONE);
    let f2 = screen_vertex(10, 20, 2 * FX_ONE);
    let farther = triangle(&f0, &f1, &f2, &light());
    assert_eq!(farther.len(), frags.len());
    for f in farther.iter() {
        let x = (f.position.x / FX_ONE) as i32;
        let y = (f.position.y / FX_ONE) as i32;
        fb.point(x, y, Vec3 { x: 0, y: FX_ONE, z: 0 }, f.depth);
    }
    for y in 0..30 {
        for x in 0..30 {
            let c = fb.get_pixel_color(x, y).unwrap();
            assert_ne!(c, Color { r: 0, g: 255, b: 0 });
        }
    }
    assert_eq!(fb.get_pixel_color(12, 12), Some(Color { r: 255, g: 0, b: 0 }));
}

#[test]
fn assembly_drops_trailing_vertices() {
    let vs = vec![
        screen_vertex(0, 0, FX_ONE),
        screen_vertex(1, 0, FX_ONE),
        screen_vertex(0, 1, FX_ONE),
        screen_vertex(9, 9, FX_ONE),
    ];
    let tris = assemble_triangles(&vs);
    assert_eq!(tris.len(), 1);
    assert_eq!(tris[0].v0, vs[0]);
    assert_eq!(tris[0].v1, vs[1]);
    assert_eq!(tris[0].v2, vs[2]);

    let seven: Vec<Vertex> = (0..7).map(|i| screen_vertex(i, i, FX_ONE)).collect();
    assert_eq!(assemble_triangles(&seven).len(), 2);
    assert_eq!(assemble_triangles(&Vec::new()).len(), 0);
    assert_eq!(assemble_triangles(&vec![screen_vertex(0, 0, FX_ONE)]).len(), 0);
}

#[test]
fn partial_mesh_rasterizes_only_complete_triangles() {
    let mut fb = Framebuffer::new(30, 30);
    // four vertices: one complete triangle, one leftover vertex
    let mesh = vec![
        object_vertex(10 * FX_ONE, 10 * FX_ONE, FX_ONE),
        object_vertex(20 * FX_ONE, 10 * FX_ONE, FX_ONE),
        object_vertex(10 * FX_ONE, 20 * FX_ONE, FX_ONE),
        object_vertex(25 * FX_ONE, 25 * FX_ONE, FX_ONE),
    ];
    let uniforms = identity_uniforms();
    render_body(&mut fb, &uniforms, &mesh, &light());
    // the triangle's interior was shaded
    assert_ne!(fb.get_pixel_color(12, 12), Some(Color { r: 0, g: 0, b: 0 }));
    // the trailing vertex produced nothing
    assert_eq!(fb.get_pixel_color(25, 25), Some(Color { r: 0, g: 0, b: 0 }));
}

#[test]
fn back_facing_triangles_are_culled_by_the_render_pass() {
    let uniforms = identity_uniforms();

    let mut fb = Framebuffer::new(30, 30);
    let ccw = vec![
        object_vertex(10 * FX_ONE, 10 * FX_ONE, FX_ONE),
        object_vertex(20 * FX_ONE, 10 * FX_ONE, FX_ONE),
        object_vertex(10 * FX_ONE, 20 * FX_ONE, FX_ONE),
    ];
    render_body(&mut fb, &uniforms, &ccw, &light());
    assert_ne!(fb.get_pixel_color(12, 12), Some(Color { r: 0, g: 0, b: 0 }));

    let mut fb2 = Framebuffer::new(30, 30);
    let cw = vec![ccw[0], ccw[2], ccw[1]];
    render_body(&mut fb2, &uniforms, &cw, &light());
    for y in 0..30 {
        for x in 0..30 {
            assert_eq!(fb2.get_pixel_color(x, y), Some(Color { r: 0, g: 0, b: 0 }));
        }
    }
}

#[test]
fn frustum_rejects_triangles_outside_the_depth_range() {
    let uniforms = identity_uniforms();
    let mut fb = Framebuffer::new(30, 30);
    // all three screen depths nearer than the near bound
    let near = vec![
        object_vertex(10 * FX_ONE, 10 * FX_ONE, 0),
        object_vertex(20 * FX_ONE, 10 * FX_ONE, 0),
        object_vertex(10 * FX_ONE, 20 * FX_ONE, 0),
    ];
    render_body(&mut fb, &uniforms, &near, &light());
    for y in 0..30 {
        for x in 0..30 {
            assert_eq!(fb.get_pixel_color(x, y), Some(Color { r: 0, g: 0, b: 0 }));
        }
    }
}

#[test]
fn vertex_shader_identity_pipeline_keeps_positions() {
    let uniforms = identity_uniforms();
    let v = object_vertex(3 * FX_ONE, -2 * FX_ONE, 5 * FX_ONE);
    let t = vertex_shader(&v, &uniforms);
    assert_eq!(t.position, v.position);
    assert_eq!(t.transformed_position, Vec3 { x: 3 * FX_ONE, y: -2 * FX_ONE, z: 5 * FX_ONE });
    // the unit normal survives renormalization exactly
    assert_eq!(t.transformed_normal, Vec3 { x: 0, y: 0, z: FX_ONE });
    // determinism
    let t2 = vertex_shader(&v, &uniforms);
    assert_eq!(t, t2);
}

#[test]
fn vertex_shader_ring_mode_builds_an_annulus() {
    let mut uniforms = identity_uniforms();
    uniforms.render_type = 1;
    let v = object_vertex(0, 0, FX_ONE);
    let t = vertex_shader(&v, &uniforms);
    // y = 0 maps halfway between the inner and outer radius: 2.3
    let r2 = ship::fixed::fx_add(
        ship::fixed::fx_mul(t.transformed_position.x, t.transformed_position.x),
        ship::fixed::fx_mul(t.transformed_position.z, t.transformed_position.z),
    );
    let r = ship::fixed::fx_sqrt(r2);
    assert!(2 * FX_ONE < r && r < 3 * FX_ONE);
}

#[test]
fn ring_and_moon_passes_preserve_the_surface_shape() {
    let mesh = vec![
        object_vertex(10 * FX_ONE, 10 * FX_ONE, FX_ONE),
        object_vertex(20 * FX_ONE, 10 * FX_ONE, FX_ONE),
        object_vertex(10 * FX_ONE, 20 * FX_ONE, FX_ONE),
    ];
    let uniforms = identity_uniforms();
    let mut fb = Framebuffer::new(30, 30);
    render_rings(&mut fb, &uniforms, &mesh, &light());
    assert_eq!(fb.width, 30);
    assert_eq!(fb.height, 30);
    let mut fb2 = Framebuffer::new(30, 30);
    render_moon(&mut fb2, &uniforms, &mesh, &light());
    assert_eq!(fb2.width, 30);
    assert_eq!(fb2.height, 30);
}

#[test]
fn viewport_matrix_maps_device_center_to_surface_center() {
    let vp = create_viewport_matrix(0, 0, 1600 * FX_ONE, 900 * FX_ONE);
    let center = multiply_matrix_vector4(&vp, &Vec4 { x: 0, y: 0, z: 0, w: FX_ONE });
    assert_eq!(center.x, 800 * FX_ONE);
    assert_eq!(center.y, 450 * FX_ONE);
    // device x = 1 lands on the right edge, y = 1 on the top row (flipped)
    let corner = multiply_matrix_vector4(&vp, &Vec4 { x: FX_ONE, y: FX_ONE, z: 0, w: FX_ONE });
    assert_eq!(corner.x, 1600 * FX_ONE);
    assert_eq!(corner.y, 0);
}

#[test]
fn model_matrix_carries_its_translation() {
    let m = create_model_matrix(
        Vec3 { x: 7 * FX_ONE, y: -FX_ONE, z: 2 * FX_ONE },
        FX_ONE,
        Vec3 { x: 0, y: 0, z: 0 },
    );
    assert_eq!(m.m03, 7 * FX_ONE);
    assert_eq!(m.m13, -FX_ONE);
    assert_eq!(m.m23, 2 * FX_ONE);
    assert_eq!(m.m33, FX_ONE);
}

#[test]
fn view_matrix_guards_the_degenerate_eye() {
    let eye = Vec3 { x: FX_ONE, y: 2 * FX_ONE, z: 3 * FX_ONE };
    let m = create_view_matrix(eye, eye, Vec3 { x: 0, y: FX_ONE, z: 0 });
    assert_eq!(m, create_identity_matrix());
}

#[test]
fn projection_matrix_guards_equal_planes() {
    let m: Mat4 = create_projection_matrix(FX_ONE, FX_ONE, 6554, 6554);
    assert_eq!(m.m22, 0);
    assert_eq!(m.m23, 0);
    assert_eq!(m.m32, -FX_ONE);
}
