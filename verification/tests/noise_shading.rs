//! Tests for the noise field, the transform stage and the shader catalog.

use planet_renderer::color::Color;
use planet_renderer::fixed::{FX_HALF, FX_ONE};
use planet_renderer::fragment::Fragment;
use planet_renderer::linalg::{Mat4, Vec2, Vec3};
use planet_renderer::noise::NoiseField;
use planet_renderer::shaders::{
    disco_ball_shader, fragment_shader, jupiter_shader_wrapper, mars_shader_wrapper,
    mercury_shader_wrapper, moving_horizontal_stripes_shader, moving_polka_dot_shader,
    saturn_ring_shader, saturn_shader_wrapper, shade, sun_shader,
    time_based_color_cycling_shader, uranus_shader_wrapper, Material, ShadeError,
};
use planet_renderer::transform::{
    create_model_matrix, create_perspective_matrix, create_view_matrix, create_viewport_matrix,
    vertex_shader,
};
use planet_renderer::uniforms::{Uniforms, UniformsPlanet};
use planet_renderer::vertex::Vertex;

fn test_uniforms(time: u32) -> Uniforms {
    Uniforms {
        model_matrix: Mat4::identity(),
        view_matrix: Mat4::identity(),
        projection_matrix: Mat4::identity(),
        viewport_matrix: Mat4::identity(),
        time,
        noise: NoiseField::sun(),
        cloud_noise: NoiseField::mars(),
    }
}

fn test_fragment() -> Fragment {
    Fragment::new(
        5,
        7,
        FX_HALF,
        Vec3::new(0, 0, FX_ONE),
        FX_ONE,
        Vec3::new(FX_ONE / 4, FX_ONE / 3, FX_HALF),
    )
}

#[test]
fn noise_is_deterministic() {
    // two calls with identical seed, parameters and coordinates agree
    let f1 = NoiseField::sun();
    let f2 = NoiseField::sun();
    for &(x, y, z) in
        &[(0i64, 0i64, 0i64), (123456, -654321, 99999), (FX_ONE, FX_ONE, FX_ONE), (-7, 8, -9)]
    {
        let a = f1.get_noise_3d(x, y, z);
        let b = f2.get_noise_3d(x, y, z);
        assert_eq!(a, b);
        assert_eq!(f1.get_noise_3d(x, y, z), a);
    }
}

#[test]
fn noise_stays_in_the_unit_band() {
    let f = NoiseField::mars();
    for i in -20i64..20 {
        let v = f.get_noise_3d(i * 7777, i * 31313, i * 131071);
        assert!(-FX_ONE <= v && v <= FX_ONE, "sample {v}");
    }
}

#[test]
fn planar_noise_is_the_zero_plane_of_the_field() {
    let f = NoiseField::with_seed(77);
    for i in 0i64..10 {
        assert_eq!(f.get_noise_2d(i * 5555, i * 9191), f.get_noise_3d(i * 5555, i * 9191, 0));
    }
}

#[test]
fn identity_chain_keeps_position_and_depth() {
    // the vertex transform round trip under the identity matrices
    let v = Vertex::new(
        Vec3::new(3 * FX_ONE, -2 * FX_ONE, FX_HALF),
        Vec3::new(FX_ONE, 0, 0),
        Vec2::new(0, 0),
        Color::new(1, 2, 3),
    );
    let out = vertex_shader(&v, &test_uniforms(0)).unwrap();
    assert_eq!(out.transformed_position, v.position);
    assert_eq!(out.transformed_normal, v.normal);
    assert_eq!(out.position, v.position);
}

#[test]
fn viewport_maps_the_origin_to_the_center() {
    let u = Uniforms { viewport_matrix: create_viewport_matrix(32 * FX_ONE, 32 * FX_ONE), ..test_uniforms(0) };
    let v = Vertex::new(Vec3::new(0, 0, FX_HALF), Vec3::new(0, 0, FX_ONE), Vec2::new(0, 0), Color::new(0, 0, 0));
    let out = vertex_shader(&v, &u).unwrap();
    assert_eq!(out.transformed_position.x, 16 * FX_ONE);
    assert_eq!(out.transformed_position.y, 16 * FX_ONE);
    assert_eq!(out.transformed_position.z, FX_HALF);
}

#[test]
fn model_matrix_without_rotation_scales_and_translates() {
    let m = create_model_matrix(Vec3::new(7 * FX_ONE, 0, 0), 2 * FX_ONE, Vec3::new(0, 0, 0));
    // the sine and cosine of zero are exact, so the rotation drops out:
    // the diagonal carries the scale and the last column the translation
    assert_eq!(m.m00, 2 * FX_ONE);
    assert_eq!(m.m11, 2 * FX_ONE);
    assert_eq!(m.m22, 2 * FX_ONE);
    assert_eq!(m.m03, 7 * FX_ONE);
    assert_eq!(m.m13, 0);
    assert_eq!(m.m23, 0);
    assert_eq!(m.m33, FX_ONE);
}

#[test]
fn model_matrix_of_unit_scale_and_no_motion_is_the_identity() {
    let m = create_model_matrix(Vec3::new(0, 0, 0), FX_ONE, Vec3::new(0, 0, 0));
    assert_eq!(m, Mat4::identity());
}

#[test]
fn view_matrix_of_a_frontal_camera() {
    let m = create_view_matrix(
        Vec3::new(0, 0, 3 * FX_ONE),
        Vec3::new(0, 0, 0),
        Vec3::new(0, FX_ONE, 0),
    );
    // looking down -z: the right axis is +x, up stays +y
    assert_eq!(m.m00, FX_ONE);
    assert_eq!(m.m11, FX_ONE);
    assert_eq!(m.m22, FX_ONE);
    // the eye moves to the origin
    assert_eq!(m.m23, -3 * FX_ONE);
}

#[test]
fn degenerate_camera_falls_back_to_identity() {
    let eye = Vec3::new(FX_ONE, FX_ONE, FX_ONE);
    let m = create_view_matrix(eye, eye, Vec3::new(0, FX_ONE, 0));
    assert_eq!(m, Mat4::identity());
}

#[test]
fn perspective_matrix_shape() {
    let m = create_perspective_matrix(800 * FX_ONE, 600 * FX_ONE);
    assert!(m.m00 > 0);
    assert!(m.m11 > 0);
    // wider than tall: the x focal length is shorter
    assert!(m.m00 < m.m11);
    assert_eq!(m.m32, -FX_ONE);
    assert!(m.m22 < 0);
}

#[test]
fn cycling_shader_starts_pure_red() {
    let c = time_based_color_cycling_shader(&test_fragment(), &test_uniforms(0));
    assert_eq!(c, Color::new(255, 0, 0));
}

#[test]
fn cycling_shader_blends_midway() {
    let c = time_based_color_cycling_shader(&test_fragment(), &test_uniforms(50));
    // halfway from red to green, each channel rounding down
    assert_eq!(c, Color::new(127, 127, 0));
}

#[test]
fn shaders_are_pure_functions() {
    let f = test_fragment();
    let u = test_uniforms(123);
    assert_eq!(sun_shader(&f, &u), sun_shader(&f, &u));
    assert_eq!(fragment_shader(&f, &u), sun_shader(&f, &u));
    assert_eq!(mars_shader_wrapper(&f, &u), mars_shader_wrapper(&f, &u));
    assert_eq!(
        moving_horizontal_stripes_shader(&f, &u),
        moving_horizontal_stripes_shader(&f, &u)
    );
    assert_eq!(moving_polka_dot_shader(&f, &u), moving_polka_dot_shader(&f, &u));
    assert_eq!(disco_ball_shader(&f, &u), disco_ball_shader(&f, &u));
    assert_eq!(jupiter_shader_wrapper(&f, &u), jupiter_shader_wrapper(&f, &u));
    assert_eq!(uranus_shader_wrapper(&f, &u), uranus_shader_wrapper(&f, &u));
    assert_eq!(saturn_ring_shader(&f, &u), saturn_ring_shader(&f, &u));
    assert_eq!(mercury_shader_wrapper(&f, &u), mercury_shader_wrapper(&f, &u));
}

#[test]
fn saturn_wrapper_follows_the_banded_algorithm() {
    let f = test_fragment();
    let u = test_uniforms(5);
    assert_eq!(saturn_shader_wrapper(&f, &u), jupiter_shader_wrapper(&f, &u));
}

#[test]
fn degenerate_normals_are_reported() {
    let mut f = test_fragment();
    f.normal = Vec3::new(0, 0, 0);
    let u = test_uniforms(0);
    assert_eq!(jupiter_shader_wrapper(&f, &u), Err(ShadeError::DegenerateNormal));
    assert_eq!(disco_ball_shader(&f, &u), Err(ShadeError::DegenerateNormal));
    assert_eq!(mercury_shader_wrapper(&f, &u), Err(ShadeError::DegenerateNormal));
    assert_eq!(shade(Material::Uranus, &f, &u), Err(ShadeError::DegenerateNormal));
    // a shader that never normalizes keeps working
    assert!(shade(Material::Sun, &f, &u).is_ok());
    assert!(shade(Material::ColorCycling, &f, &u).is_ok());
}

#[test]
fn dispatch_matches_the_direct_calls() {
    let f = test_fragment();
    let u = test_uniforms(11);
    assert_eq!(shade(Material::Sun, &f, &u), Ok(sun_shader(&f, &u)));
    assert_eq!(shade(Material::Mars, &f, &u), Ok(mars_shader_wrapper(&f, &u)));
    assert_eq!(shade(Material::Jupiter, &f, &u), jupiter_shader_wrapper(&f, &u));
    assert_eq!(shade(Material::SaturnRing, &f, &u), saturn_ring_shader(&f, &u));
    assert_eq!(
        shade(Material::ColorCycling, &f, &u),
        Ok(time_based_color_cycling_shader(&f, &u))
    );
}

#[test]
fn planet_uniforms_carry_over() {
    let p = UniformsPlanet {
        model_matrix: Mat4::identity(),
        view_matrix: Mat4::identity(),
        projection_matrix: Mat4::identity(),
        viewport_matrix: Mat4::identity(),
        time: 9,
        noise: NoiseField::mars(),
    };
    let u = p.to_uniforms();
    assert_eq!(u.time, 9);
    assert_eq!(u.noise, NoiseField::mars());
    assert_eq!(u.cloud_noise, NoiseField::mars());
}
