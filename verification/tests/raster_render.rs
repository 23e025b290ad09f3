//! Tests for the rasterizer and the full render call, including the
//! right-triangle scenario and its farther-depth repeat.

use planet_renderer::color::Color;
use planet_renderer::fixed::{FX_HALF, FX_ONE};
use planet_renderer::framebuffer::{Framebuffer, DEPTH_FAR};
use planet_renderer::fragment::Fragment;
use planet_renderer::linalg::{Mat4, Vec2, Vec3};
use planet_renderer::noise::NoiseField;
use planet_renderer::pipeline::render;
use planet_renderer::raster::triangle;
use planet_renderer::shaders::Material;
use planet_renderer::transform::vertex_shader;
use planet_renderer::uniforms::Uniforms;
use planet_renderer::vertex::Vertex;

fn screen_vertex(x: i64, y: i64, z: i64) -> Vertex {
    Vertex::new(
        Vec3::new(x * FX_ONE, y * FX_ONE, z),
        Vec3::new(0, 0, FX_ONE),
        Vec2::new(0, 0),
        Color::new(255, 255, 255),
    )
}

fn identity_uniforms(time: u32) -> Uniforms {
    Uniforms {
        model_matrix: Mat4::identity(),
        view_matrix: Mat4::identity(),
        projection_matrix: Mat4::identity(),
        viewport_matrix: Mat4::identity(),
        time,
        noise: NoiseField::sun(),
        cloud_noise: NoiseField::with_seed(9),
    }
}

/// The pixels of the right triangle (10,10), (20,10), (10,20) are exactly
/// those with x >= 10, y >= 10, x + y <= 30.
fn in_right_triangle(x: usize, y: usize) -> bool {
    x >= 10 && y >= 10 && x + y <= 30
}

#[test]
fn rasterizer_covers_the_right_triangle_exactly() {
    let a = vertex_shader(&screen_vertex(10, 10, FX_HALF), &identity_uniforms(0)).unwrap();
    let b = vertex_shader(&screen_vertex(20, 10, FX_HALF), &identity_uniforms(0)).unwrap();
    let c = vertex_shader(&screen_vertex(10, 20, FX_HALF), &identity_uniforms(0)).unwrap();
    let frags = triangle(&a, &b, &c);
    let mut seen = [[false; 32]; 32];
    for f in &frags {
        assert!(0 <= f.x && f.x < 32 && 0 <= f.y && f.y < 32);
        let (x, y) = (f.x as usize, f.y as usize);
        assert!(!seen[y][x], "pixel emitted twice");
        seen[y][x] = true;
        assert!(in_right_triangle(x, y), "stray fragment at ({x},{y})");
        // uniform vertex depth 0.5 interpolates back to 0.5 up to the
        // quantization of the three normalized weights
        assert!(FX_HALF - 2 <= f.depth && f.depth <= FX_HALF, "depth {}", f.depth);
        // uniform +z normals give full lighting intensity
        assert_eq!(f.intensity, FX_ONE);
    }
    for y in 0..32 {
        for x in 0..32 {
            assert_eq!(seen[y][x], in_right_triangle(x, y), "coverage at ({x},{y})");
        }
    }
}

#[test]
fn zero_area_triangle_emits_nothing() {
    let u = identity_uniforms(0);
    let a = vertex_shader(&screen_vertex(5, 5, 0), &u).unwrap();
    let b = vertex_shader(&screen_vertex(10, 10, 0), &u).unwrap();
    let c = vertex_shader(&screen_vertex(15, 15, 0), &u).unwrap();
    assert_eq!(triangle(&a, &b, &c).len(), 0);
    let d = vertex_shader(&screen_vertex(5, 5, 0), &u).unwrap();
    assert_eq!(triangle(&a, &b, &d).len(), 0);
}

#[test]
fn winding_does_not_change_coverage() {
    let u = identity_uniforms(0);
    let a = vertex_shader(&screen_vertex(10, 10, FX_HALF), &u).unwrap();
    let b = vertex_shader(&screen_vertex(20, 10, FX_HALF), &u).unwrap();
    let c = vertex_shader(&screen_vertex(10, 20, FX_HALF), &u).unwrap();
    let ccw = triangle(&a, &b, &c);
    let cw = triangle(&a, &c, &b);
    let mut ccw_pixels: Vec<(i64, i64)> = ccw.iter().map(|f| (f.x, f.y)).collect();
    let mut cw_pixels: Vec<(i64, i64)> = cw.iter().map(|f| (f.x, f.y)).collect();
    ccw_pixels.sort();
    cw_pixels.sort();
    assert_eq!(ccw_pixels, cw_pixels);
}

#[test]
fn right_triangle_scenario_renders_exactly() {
    // a unit-scale triangle at (10,10), (20,10), (10,20), uniform depth
    // 0.5, into a cleared 32 x 32 framebuffer
    let mut fb = Framebuffer::new(32, 32);
    fb.set_background_color(0x333355);
    fb.clear();
    let verts = vec![
        screen_vertex(10, 10, FX_HALF),
        screen_vertex(20, 10, FX_HALF),
        screen_vertex(10, 20, FX_HALF),
    ];
    // at time zero the cycling shader paints pure red at full intensity
    let r = render(&mut fb, &identity_uniforms(0), &verts, Material::ColorCycling);
    assert!(r.is_ok());
    for y in 0..32usize {
        for x in 0..32usize {
            let idx = y * 32 + x;
            if in_right_triangle(x, y) {
                assert_eq!(fb.buffer[idx], 0xFF0000, "color at ({x},{y})");
                assert!(
                    FX_HALF - 2 <= fb.zbuffer[idx] && fb.zbuffer[idx] <= FX_HALF,
                    "depth at ({x},{y}) was {}",
                    fb.zbuffer[idx]
                );
            } else {
                assert_eq!(fb.buffer[idx], 0x333355, "background at ({x},{y})");
                assert_eq!(fb.zbuffer[idx], DEPTH_FAR, "far depth at ({x},{y})");
            }
        }
    }
}

#[test]
fn farther_second_pass_changes_nothing() {
    // the same triangle twice; the second pass sits at depth 0.9 and the
    // depth test rejects every write
    let mut fb = Framebuffer::new(32, 32);
    fb.set_background_color(0x333355);
    fb.clear();
    let near = vec![
        screen_vertex(10, 10, FX_HALF),
        screen_vertex(20, 10, FX_HALF),
        screen_vertex(10, 20, FX_HALF),
    ];
    let far_depth = 58982; // 0.9 in fixed point
    let far = vec![
        screen_vertex(10, 10, far_depth),
        screen_vertex(20, 10, far_depth),
        screen_vertex(10, 20, far_depth),
    ];
    render(&mut fb, &identity_uniforms(0), &near, Material::ColorCycling).unwrap();
    let colors_once = fb.buffer.clone();
    let depths_once = fb.zbuffer.clone();
    render(&mut fb, &identity_uniforms(0), &far, Material::Sun).unwrap();
    assert_eq!(fb.buffer, colors_once);
    assert_eq!(fb.zbuffer, depths_once);
}

#[test]
fn two_bodies_composite_through_the_depth_test() {
    // a second render call into the same framebuffer wins exactly where
    // it is nearer
    let mut fb = Framebuffer::new(32, 32);
    fb.set_background_color(0x333355);
    fb.clear();
    let far_tri = vec![
        screen_vertex(10, 10, FX_HALF),
        screen_vertex(20, 10, FX_HALF),
        screen_vertex(10, 20, FX_HALF),
    ];
    let near_depth = FX_ONE / 4;
    let near_tri = vec![
        screen_vertex(12, 12, near_depth),
        screen_vertex(16, 12, near_depth),
        screen_vertex(12, 16, near_depth),
    ];
    render(&mut fb, &identity_uniforms(0), &far_tri, Material::ColorCycling).unwrap();
    render(&mut fb, &identity_uniforms(100), &near_tri, Material::ColorCycling).unwrap();
    // at frame 100 the cycling shader paints pure green
    let idx = 13 * 32 + 13; // inside both triangles
    assert_eq!(fb.buffer[idx], 0x00FF00);
    assert!(fb.zbuffer[idx] <= near_depth);
    let idx_outer = 10 * 32 + 18; // only inside the first triangle
    assert_eq!(fb.buffer[idx_outer], 0xFF0000);
}

#[test]
fn trailing_partial_triple_is_dropped() {
    let mut fb1 = Framebuffer::new(16, 16);
    fb1.clear();
    let mut fb2 = Framebuffer::new(16, 16);
    fb2.clear();
    let tri = vec![
        screen_vertex(2, 2, FX_HALF),
        screen_vertex(10, 2, FX_HALF),
        screen_vertex(2, 10, FX_HALF),
    ];
    let mut with_extra = tri.clone();
    with_extra.push(screen_vertex(0, 0, FX_HALF));
    with_extra.push(screen_vertex(15, 15, FX_HALF));
    render(&mut fb1, &identity_uniforms(0), &tri, Material::ColorCycling).unwrap();
    render(&mut fb2, &identity_uniforms(0), &with_extra, Material::ColorCycling).unwrap();
    assert_eq!(fb1.buffer, fb2.buffer);
    assert_eq!(fb1.zbuffer, fb2.zbuffer);
}

#[test]
fn degenerate_normal_aborts_with_the_material_named() {
    // a zero normal reaches a shader that must normalize it
    let mut fb = Framebuffer::new(16, 16);
    fb.clear();
    let mut v1 = screen_vertex(2, 2, FX_HALF);
    let mut v2 = screen_vertex(10, 2, FX_HALF);
    let mut v3 = screen_vertex(2, 10, FX_HALF);
    v1.normal = Vec3::new(0, 0, 0);
    v2.normal = Vec3::new(0, 0, 0);
    v3.normal = Vec3::new(0, 0, 0);
    let err = render(&mut fb, &identity_uniforms(0), &vec![v1, v2, v3], Material::Jupiter)
        .unwrap_err();
    assert_eq!(err.material, Material::Jupiter);
}

#[test]
fn out_of_screen_fragments_are_filtered() {
    // a triangle mostly left of the screen writes only its on-screen part
    let mut fb = Framebuffer::new(8, 8);
    fb.clear();
    let verts = vec![
        screen_vertex(-5, 1, FX_HALF),
        screen_vertex(4, 1, FX_HALF),
        screen_vertex(-5, 6, FX_HALF),
    ];
    render(&mut fb, &identity_uniforms(0), &verts, Material::ColorCycling).unwrap();
    for y in 0..8usize {
        for x in 0..8usize {
            let idx = y * 8 + x;
            let written = fb.buffer[idx] != 0;
            assert_eq!(written, fb.zbuffer[idx] != DEPTH_FAR);
        }
    }
    // the fragment at (0, 1) is inside the triangle and on screen
    assert_ne!(fb.buffer[8], 0);
}

#[test]
fn moon_orbit_starts_on_the_x_axis() {
    let p = planet_renderer::transform::calculate_moon_position(0, 5 * FX_ONE, 66);
    // the angle is zero, so the moon sits exactly at (distance, 0, 0)
    assert_eq!(p, Vec3::new(5 * FX_ONE, 0, 0));
}

#[test]
fn fragments_carry_their_pixel() {
    let u = identity_uniforms(0);
    let a = vertex_shader(&screen_vertex(1, 1, 0), &u).unwrap();
    let b = vertex_shader(&screen_vertex(3, 1, 0), &u).unwrap();
    let c = vertex_shader(&screen_vertex(1, 3, 0), &u).unwrap();
    let frags: Vec<Fragment> = triangle(&a, &b, &c);
    assert!(!frags.is_empty());
    assert!(frags.iter().any(|f| f.x == 1 && f.y == 1));
}
