//! The frame buffer: clearing, the depth-tested point write, and the
//! overlay line.

use ship::fixed::FX_ONE;
use ship::framebuffer::{Color, Framebuffer, DEPTH_INFINITY};
use ship::vec3::Vec3;

fn red() -> Vec3 {
    Vec3 { x: FX_ONE, y: 0, z: 0 }
}

fn green() -> Vec3 {
    Vec3 { x: 0, y: FX_ONE, z: 0 }
}

#[test]
fn cleared_surface_is_background_and_infinite_depth() {
    let mut fb = Framebuffer::new(8, 8);
    fb.point(3, 3, red(), FX_ONE);
    fb.clear();
    for y in 0..8 {
        for x in 0..8 {
            assert_eq!(fb.get_pixel_color(x, y), Some(Color { r: 0, g: 0, b: 0 }));
            assert_eq!(fb.depth_buffer[(y * 8 + x) as usize], DEPTH_INFINITY);
        }
    }
}

#[test]
fn clear_uses_the_configured_background() {
    let mut fb = Framebuffer::new(4, 4);
    fb.set_background_color(Color { r: 5, g: 5, b: 15 });
    fb.clear();
    assert_eq!(fb.get_pixel_color(0, 0), Some(Color { r: 5, g: 5, b: 15 }));
}

#[test]
fn point_depth_is_monotone_nonincreasing() {
    let mut fb = Framebuffer::new(8, 8);
    let idx = (5 * 8 + 5) as usize;

    fb.point(5, 5, red(), FX_ONE);
    assert_eq!(fb.depth_buffer[idx], FX_ONE);
    assert_eq!(fb.get_pixel_color(5, 5), Some(Color { r: 255, g: 0, b: 0 }));

    // farther: rejected
    fb.point(5, 5, green(), 2 * FX_ONE);
    assert_eq!(fb.depth_buffer[idx], FX_ONE);
    assert_eq!(fb.get_pixel_color(5, 5), Some(Color { r: 255, g: 0, b: 0 }));

    // equal: ties lose, no overwrite
    fb.point(5, 5, green(), FX_ONE);
    assert_eq!(fb.depth_buffer[idx], FX_ONE);
    assert_eq!(fb.get_pixel_color(5, 5), Some(Color { r: 255, g: 0, b: 0 }));

    // strictly nearer: accepted
    fb.point(5, 5, green(), 0);
    assert_eq!(fb.depth_buffer[idx], 0);
    assert_eq!(fb.get_pixel_color(5, 5), Some(Color { r: 0, g: 255, b: 0 }));
}

#[test]
fn point_outside_the_surface_is_a_no_op() {
    let mut fb = Framebuffer::new(8, 8);
    fb.point(-1, 0, red(), 0);
    fb.point(0, -1, red(), 0);
    fb.point(8, 0, red(), 0);
    fb.point(0, 8, red(), 0);
    for y in 0..8 {
        for x in 0..8 {
            assert_eq!(fb.get_pixel_color(x, y), Some(Color { r: 0, g: 0, b: 0 }));
        }
    }
    assert_eq!(fb.get_pixel_color(8, 8), None);
    assert_eq!(fb.get_pixel_color(-1, 3), None);
}

#[test]
fn colors_quantize_per_channel() {
    let mut fb = Framebuffer::new(4, 4);
    fb.point(1, 1, Vec3 { x: FX_ONE, y: FX_ONE / 2, z: 0 }, 0);
    assert_eq!(fb.get_pixel_color(1, 1), Some(Color { r: 255, g: 127, b: 0 }));
    // channels clamp before quantization
    fb.point(2, 2, Vec3 { x: 3 * FX_ONE, y: -FX_ONE, z: FX_ONE }, 0);
    assert_eq!(fb.get_pixel_color(2, 2), Some(Color { r: 255, g: 0, b: 255 }));
}

#[test]
fn set_pixel_uses_the_current_color_without_depth() {
    let mut fb = Framebuffer::new(4, 4);
    fb.set_current_color(Color { r: 9, g: 8, b: 7 });
    fb.set_pixel(2, 1);
    assert_eq!(fb.get_pixel_color(2, 1), Some(Color { r: 9, g: 8, b: 7 }));
    assert_eq!(fb.depth_buffer[(1 * 4 + 2) as usize], DEPTH_INFINITY);
    fb.set_pixel(-3, 100);
}

#[test]
fn draw_line_plots_a_horizontal_run() {
    let mut fb = Framebuffer::new(16, 16);
    fb.draw_line(
        Vec3 { x: 2 * FX_ONE, y: 3 * FX_ONE, z: FX_ONE },
        Vec3 { x: 6 * FX_ONE, y: 3 * FX_ONE, z: FX_ONE },
        red(),
    );
    for x in 2..=6 {
        assert_eq!(fb.get_pixel_color(x, 3), Some(Color { r: 255, g: 0, b: 0 }));
    }
    assert_eq!(fb.get_pixel_color(7, 3), Some(Color { r: 0, g: 0, b: 0 }));
    assert_eq!(fb.get_pixel_color(2, 4), Some(Color { r: 0, g: 0, b: 0 }));
}

#[test]
fn draw_line_single_point() {
    let mut fb = Framebuffer::new(8, 8);
    fb.draw_line(
        Vec3 { x: 4 * FX_ONE, y: 4 * FX_ONE, z: 0 },
        Vec3 { x: 4 * FX_ONE, y: 4 * FX_ONE, z: 0 },
        green(),
    );
    assert_eq!(fb.get_pixel_color(4, 4), Some(Color { r: 0, g: 255, b: 0 }));
}

#[test]
fn color_data_exposes_the_whole_surface() {
    let mut fb = Framebuffer::new(3, 2);
    fb.point(2, 1, red(), 0);
    let data = fb.color_data();
    assert_eq!(data.len(), 6);
    assert_eq!(data[1 * 3 + 2], Color { r: 255, g: 0, b: 0 });
    assert_eq!(data[0], Color { r: 0, g: 0, b: 0 });
}
