//! Tests for colors and for the depth-tested framebuffer.

use planet_renderer::color::Color;
use planet_renderer::fixed::{FX_HALF, FX_ONE};
use planet_renderer::framebuffer::{Framebuffer, DEPTH_FAR};

#[test]
fn hex_round_trip() {
    let c = Color::new(0x12, 0x34, 0x56);
    assert_eq!(c.to_hex(), 0x123456);
    assert_eq!(Color::from_hex(0x123456), c);
    assert_eq!(Color::from_hex(0xFF123456), c);
}

#[test]
fn lerp_endpoints_and_clamping() {
    let a = Color::new(10, 20, 30);
    let b = Color::new(110, 220, 130);
    assert_eq!(a.lerp(&b, 0), a);
    assert_eq!(a.lerp(&b, FX_ONE), b);
    assert_eq!(a.lerp(&b, FX_HALF), Color::new(60, 120, 80));
    // factors outside the unit interval are clamped
    assert_eq!(a.lerp(&b, -FX_ONE), a);
    assert_eq!(a.lerp(&b, 5 * FX_ONE), b);
}

#[test]
fn blend_add_saturates() {
    let a = Color::new(200, 10, 255);
    let b = Color::new(100, 5, 1);
    assert_eq!(a.blend_add(&b), Color::new(255, 15, 255));
}

#[test]
fn scale_clamps_to_channel_range() {
    let c = Color::new(100, 200, 50);
    assert_eq!(c.scale(FX_ONE), c);
    assert_eq!(c.scale(FX_HALF), Color::new(50, 100, 25));
    assert_eq!(c.scale(0), Color::new(0, 0, 0));
    assert_eq!(c.scale(2 * FX_ONE), Color::new(200, 255, 100));
    assert_eq!(c.scale(-FX_ONE), Color::new(0, 0, 0));
}

#[test]
fn from_fx_scales_the_unit_interval() {
    assert_eq!(Color::from_fx(FX_ONE, 0, FX_HALF), Color::new(255, 0, 127));
    assert_eq!(Color::from_fx(2 * FX_ONE, -FX_ONE, 0), Color::new(255, 0, 0));
}

#[test]
fn new_framebuffer_is_black_and_far() {
    let fb = Framebuffer::new(4, 3);
    assert_eq!(fb.width, 4);
    assert_eq!(fb.height, 3);
    assert_eq!(fb.buffer.len(), 12);
    assert_eq!(fb.zbuffer.len(), 12);
    assert!(fb.buffer.iter().all(|&c| c == 0));
    assert!(fb.zbuffer.iter().all(|&d| d == DEPTH_FAR));
}

#[test]
fn clear_resets_to_background_and_far() {
    let mut fb = Framebuffer::new(4, 4);
    fb.set_background_color(0xABCDEF);
    fb.set_current_color(0x111111);
    fb.point(1, 2, 100);
    fb.clear();
    assert!(fb.buffer.iter().all(|&c| c == 0xABCDEF));
    assert!(fb.zbuffer.iter().all(|&d| d == DEPTH_FAR));
}

#[test]
fn first_write_after_clear_always_lands() {
    // the clear guarantee: any depth below the far sentinel wins
    let mut fb = Framebuffer::new(2, 2);
    fb.clear();
    fb.set_current_color(0x00FF00);
    fb.point(1, 1, DEPTH_FAR - 1);
    assert_eq!(fb.buffer[3], 0x00FF00);
    assert_eq!(fb.zbuffer[3], DEPTH_FAR - 1);
}

#[test]
fn depth_test_keeps_the_nearer_write() {
    let mut fb = Framebuffer::new(2, 1);
    fb.clear();
    fb.set_current_color(0xAA0000);
    fb.point(0, 0, 5000);
    fb.set_current_color(0x00BB00);
    // farther: rejected
    fb.point(0, 0, 6000);
    assert_eq!(fb.buffer[0], 0xAA0000);
    assert_eq!(fb.zbuffer[0], 5000);
    // nearer: accepted
    fb.point(0, 0, 4000);
    assert_eq!(fb.buffer[0], 0x00BB00);
    assert_eq!(fb.zbuffer[0], 4000);
}

#[test]
fn writing_the_same_depth_twice_changes_nothing() {
    // depth-test idempotence at one pixel
    let mut fb = Framebuffer::new(3, 3);
    fb.clear();
    fb.set_current_color(0x123123);
    fb.point(2, 1, 777);
    let colors_once = fb.buffer.clone();
    let depths_once = fb.zbuffer.clone();
    fb.point(2, 1, 777);
    assert_eq!(fb.buffer, colors_once);
    assert_eq!(fb.zbuffer, depths_once);
}
