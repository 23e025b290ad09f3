//! Tests for the fixed-point arithmetic core.

use planet_renderer::fixed::{
    fx_abs, fx_add, fx_ceil, fx_clamp, fx_cos, fx_div, fx_floor, fx_fract, fx_from_int, fx_lerp,
    fx_max, fx_min, fx_mul, fx_rem, fx_sin, fx_sub, isqrt, FX_HALF, FX_ONE, FX_PI, FX_TAU,
};

#[test]
fn mul_by_one_is_exact() {
    assert_eq!(fx_mul(FX_ONE, 12345), 12345);
    assert_eq!(fx_mul(-98765, FX_ONE), -98765);
    assert_eq!(fx_mul(0, i64::MAX), 0);
}

#[test]
fn mul_scales_halves() {
    // 1.5 * 2 == 3
    assert_eq!(fx_mul(FX_ONE + FX_HALF, 2 * FX_ONE), 3 * FX_ONE);
    // 0.5 * 0.5 == 0.25
    assert_eq!(fx_mul(FX_HALF, FX_HALF), FX_ONE / 4);
}

#[test]
fn mul_saturates_at_the_extremes() {
    assert_eq!(fx_mul(i64::MAX, i64::MAX), i64::MAX);
    assert_eq!(fx_mul(i64::MAX, i64::MIN), i64::MIN);
}

#[test]
fn div_by_one_is_exact() {
    assert_eq!(fx_div(424242, FX_ONE), 424242);
    assert_eq!(fx_div(-424242, FX_ONE), -424242);
}

#[test]
fn div_matches_ratio() {
    // 3 / 2 == 1.5
    assert_eq!(fx_div(3 * FX_ONE, 2 * FX_ONE), FX_ONE + FX_HALF);
    // sign symmetry of the library's division
    assert_eq!(fx_div(3 * FX_ONE, -2 * FX_ONE), fx_div(-3 * FX_ONE, 2 * FX_ONE));
}

#[test]
fn add_sub_saturate() {
    assert_eq!(fx_add(i64::MAX, 1), i64::MAX);
    assert_eq!(fx_sub(i64::MIN, 1), i64::MIN);
    assert_eq!(fx_add(5, 7), 12);
    assert_eq!(fx_sub(5, 7), -2);
}

#[test]
fn clamp_min_max_abs() {
    assert_eq!(fx_clamp(10, 0, 5), 5);
    assert_eq!(fx_clamp(-10, 0, 5), 0);
    assert_eq!(fx_clamp(3, 0, 5), 3);
    assert_eq!(fx_min(3, 5), 3);
    assert_eq!(fx_max(3, 5), 5);
    assert_eq!(fx_abs(-7), 7);
    assert_eq!(fx_abs(7), 7);
}

#[test]
fn lerp_hits_the_endpoints() {
    assert_eq!(fx_lerp(100, 300, 0), 100);
    assert_eq!(fx_lerp(100, 300, FX_ONE), 300);
    assert_eq!(fx_lerp(100, 300, FX_HALF), 200);
    assert_eq!(fx_lerp(300, 100, FX_HALF), 200);
}

#[test]
fn floor_ceil_fract() {
    assert_eq!(fx_floor(3 * FX_ONE + 1), 3);
    assert_eq!(fx_floor(-3 * FX_ONE - 1), -4);
    assert_eq!(fx_ceil(3 * FX_ONE + 1), 4);
    assert_eq!(fx_ceil(3 * FX_ONE), 3);
    assert_eq!(fx_fract(3 * FX_ONE + 17), 17);
    assert_eq!(fx_fract(-FX_ONE - 1), FX_ONE - 1);
    assert_eq!(fx_rem(17, 5), 2);
    assert_eq!(fx_rem(-17, 5), 3);
    assert_eq!(fx_from_int(3), 3 * FX_ONE);
}

#[test]
fn sine_is_periodic_and_bounded() {
    assert_eq!(fx_sin(0), 0);
    for x in [-400000i64, -12345, 0, 777, 102944, 205887, 300000, 411774] {
        let s = fx_sin(x);
        assert!(-FX_ONE <= s && s <= FX_ONE);
        assert_eq!(fx_sin(x + FX_TAU), s);
        assert_eq!(fx_sin(x - FX_TAU), s);
    }
}

#[test]
fn sine_is_exact_at_the_quarter_turns() {
    assert_eq!(fx_sin(FX_PI / 2), FX_ONE);
    assert_eq!(fx_sin(FX_PI + FX_PI / 2), -FX_ONE);
    assert_eq!(fx_sin(FX_PI), 0);
}

#[test]
fn cosine_is_exact_at_the_cardinal_angles() {
    assert_eq!(fx_cos(0), FX_ONE);
    assert_eq!(fx_cos(FX_PI), -FX_ONE);
}

#[test]
fn integer_square_roots() {
    assert_eq!(isqrt(0), 0);
    assert_eq!(isqrt(1), 1);
    assert_eq!(isqrt(3), 1);
    assert_eq!(isqrt(4), 2);
    assert_eq!(isqrt(1 << 40), 1 << 20);
    assert_eq!(isqrt((1 << 40) - 1), (1 << 20) - 1);
}
