//! The shader catalog and its dispatch.
//!
//! A shader is a pure function from a fragment and the uniforms to a color.
//! Each follows the same pattern: sample the noise fields at the fragment's
//! interpolated position (often animated by the frame counter), turn the
//! samples into a blend factor, interpolate between base colors, optionally
//! apply a diffuse light term and a pulsating modulation, and scale by the
//! fragment's intensity. A shader that must normalize a vector reports a
//! degenerate (zero-length) vector as an error instead of writing corrupt
//! color data.
//!
//! Fractional constants appear scaled by `FX_ONE`: 19661 is three tenths,
//! 13107 a fifth, 6554 a tenth, and so on.

use crate::color::Color;
use crate::fixed::{
    fx_abs, fx_add, fx_clamp, fx_cos, fx_div, fx_floor, fx_fract, fx_from_int, fx_max, fx_min,
    fx_mul, fx_rem, fx_sin, fx_sub, spec_fx_add, spec_fx_floor, spec_fx_fract, spec_fx_from_int,
    spec_fx_rem, FX_HALF, FX_ONE, FX_TWO,
};
use crate::fragment::Fragment;
use crate::linalg::{Vec2, Vec3};
use crate::noise::{spec_noise_2d, spec_noise_3d};
use crate::uniforms::Uniforms;
use vstd::prelude::*;

verus! {

/// Fragments handed to the shaders keep their interpolated coordinates
/// within this bound (the rasterizer's outputs always do), so distances
/// and normals can be measured.
pub const FRAG_LIMIT: i64 = 0x4_0000_0000_0000;

/// The materials the dispatch can select.
#[derive(Clone, Copy, PartialEq, Eq, Structural, Debug)]
pub enum Material {
    Sun,
    Mars,
    HorizontalStripes,
    PolkaDot,
    DiscoBall,
    ColorCycling,
    Jupiter,
    Saturn,
    SaturnRing,
    Mercury,
    Uranus,
    Earth,
}

/// The shading stage's fatal condition: a zero-length normal or light
/// vector, reported rather than silently turned into corrupt color data.
#[derive(Clone, Copy, PartialEq, Eq, Structural, Debug)]
pub enum ShadeError {
    DegenerateNormal,
}

/// The interpolated position and normal are within the shader range.
pub open spec fn spec_fragment_in_range(f: Fragment) -> bool {
    &&& -FRAG_LIMIT <= f.vertex_position.x <= FRAG_LIMIT
    &&& -FRAG_LIMIT <= f.vertex_position.y <= FRAG_LIMIT
    &&& -FRAG_LIMIT <= f.vertex_position.z <= FRAG_LIMIT
    &&& -FRAG_LIMIT <= f.normal.x <= FRAG_LIMIT
    &&& -FRAG_LIMIT <= f.normal.y <= FRAG_LIMIT
    &&& -FRAG_LIMIT <= f.normal.z <= FRAG_LIMIT
    &&& -FRAG_LIMIT <= f.depth <= FRAG_LIMIT
}

/// Runtime check for `spec_fragment_in_range`.
pub fn fragment_in_range(f: &Fragment) -> (r: bool)
    ensures
        r == spec_fragment_in_range(*f),
{
    let p = f.vertex_position;
    let n = f.normal;
    -FRAG_LIMIT <= p.x && p.x <= FRAG_LIMIT && -FRAG_LIMIT <= p.y && p.y <= FRAG_LIMIT
        && -FRAG_LIMIT <= p.z && p.z <= FRAG_LIMIT && -FRAG_LIMIT <= n.x && n.x <= FRAG_LIMIT
        && -FRAG_LIMIT <= n.y && n.y <= FRAG_LIMIT && -FRAG_LIMIT <= n.z && n.z <= FRAG_LIMIT
        && -FRAG_LIMIT <= f.depth && f.depth <= FRAG_LIMIT
}

/// The sun: two pulsating noise samples averaged, blending a dark
/// red-orange toward bright orange, scaled by the fragment intensity.
pub open spec fn spec_sun_shader(f: Fragment, u: Uniforms) -> Color {
    let bright = Color { r: 255, g: 240, b: 0 };
    let dark = Color { r: 130, g: 20, b: 0 };
    let px = f.vertex_position.x;
    let py = f.vertex_position.y;
    let pz = f.depth;
    let t = fx_mul(spec_fx_from_int(u.time as i64), 19661);
    let pulsate = fx_mul(fx_sin(fx_mul(t, 13107)), FX_HALF);
    let zoom: i64 = 65536000;
    let n1 = spec_noise_3d(
        u.noise,
        fx_mul(px, zoom),
        fx_mul(py, zoom),
        fx_mul(fx_add(pz, pulsate), zoom),
    );
    let n2 = spec_noise_3d(
        u.noise,
        fx_mul(fx_add(px, 65536000), zoom),
        fx_mul(fx_add(py, 65536000), zoom),
        fx_mul(fx_add(fx_add(pz, 65536000), pulsate), zoom),
    );
    let noise_value = fx_mul(fx_add(n1, n2), FX_HALF);
    dark.spec_lerp(bright, noise_value).spec_scale(f.intensity)
}

pub fn sun_shader(fragment: &Fragment, uniforms: &Uniforms) -> (c: Color)
    requires
        uniforms.noise.wf(),
    ensures
        c == spec_sun_shader(*fragment, *uniforms),
{
    let bright = Color::new(255, 240, 0);
    let dark = Color::new(130, 20, 0);
    let px = fragment.vertex_position.x;
    let py = fragment.vertex_position.y;
    let pz = fragment.depth;
    let t = fx_mul(fx_from_int(uniforms.time as i64), 19661);
    let pulsate = fx_mul(fx_sin(fx_mul(t, 13107)), FX_HALF);
    let zoom: i64 = 65536000;
    let n1 = uniforms.noise.get_noise_3d(
        fx_mul(px, zoom),
        fx_mul(py, zoom),
        fx_mul(fx_add(pz, pulsate), zoom),
    );
    let n2 = uniforms.noise.get_noise_3d(
        fx_mul(fx_add(px, 65536000), zoom),
        fx_mul(fx_add(py, 65536000), zoom),
        fx_mul(fx_add(fx_add(pz, 65536000), pulsate), zoom),
    );
    let noise_value = fx_mul(fx_add(n1, n2), FX_HALF);
    dark.lerp(&bright, noise_value).scale(fragment.intensity)
}

/// The default shader applied when no material is singled out.
pub open spec fn spec_fragment_shader(f: Fragment, u: Uniforms) -> Color {
    spec_sun_shader(f, u)
}

pub fn fragment_shader(fragment: &Fragment, uniforms: &Uniforms) -> (c: Color)
    requires
        uniforms.noise.wf(),
    ensures
        c == spec_fragment_shader(*fragment, *uniforms),
{
    sun_shader(fragment, uniforms)
}

/// The six colors the cycling shader rotates through.
pub open spec fn spec_cycle_color(i: u32) -> Color {
    if i == 0 {
        Color { r: 255, g: 0, b: 0 }
    } else if i == 1 {
        Color { r: 0, g: 255, b: 0 }
    } else if i == 2 {
        Color { r: 0, g: 0, b: 255 }
    } else if i == 3 {
        Color { r: 255, g: 255, b: 0 }
    } else if i == 4 {
        Color { r: 255, g: 0, b: 255 }
    } else {
        Color { r: 0, g: 255, b: 255 }
    }
}

fn cycle_color(i: u32) -> (c: Color)
    ensures
        c == spec_cycle_color(i),
{
    if i == 0 {
        Color::new(255, 0, 0)
    } else if i == 1 {
        Color::new(0, 255, 0)
    } else if i == 2 {
        Color::new(0, 0, 255)
    } else if i == 3 {
        Color::new(255, 255, 0)
    } else if i == 4 {
        Color::new(255, 0, 255)
    } else {
        Color::new(0, 255, 255)
    }
}

/// Cycles through six colors, one hundred frames per color, blending into
/// the next color as the counter advances.
pub open spec fn spec_time_based_color_cycling_shader(f: Fragment, u: Uniforms) -> Color {
    let color_index = (u.time / 100) % 6;
    let progress = fx_div(
        spec_fx_from_int((u.time % 100) as i64),
        spec_fx_from_int(100),
    );
    let current = spec_cycle_color(color_index);
    let next = spec_cycle_color(((color_index + 1) % 6) as u32);
    current.spec_lerp(next, progress).spec_scale(f.intensity)
}

pub fn time_based_color_cycling_shader(fragment: &Fragment, uniforms: &Uniforms) -> (c: Color)
    ensures
        c == spec_time_based_color_cycling_shader(*fragment, *uniforms),
{
    let color_index = (uniforms.time / 100) % 6;
    let progress = fx_div(
        fx_from_int((uniforms.time % 100) as i64),
        fx_from_int(100),
    );
    let current = cycle_color(color_index);
    let next = cycle_color((color_index + 1) % 6);
    current.lerp(&next, progress).scale(fragment.intensity)
}

/// Red and blue stripes drifting upward over time.
pub open spec fn spec_moving_horizontal_stripes_shader(f: Fragment, u: Uniforms) -> Color {
    let color1 = Color { r: 255, g: 0, b: 0 };
    let color2 = Color { r: 0, g: 0, b: 255 };
    let moving_y = fx_add(
        f.vertex_position.y,
        fx_mul(spec_fx_from_int(u.time as i64), 131),
    );
    let stripe_factor = fx_add(
        fx_mul(fx_sin(fx_mul(fx_div(moving_y, 13107), crate::fixed::FX_PI)), FX_HALF),
        FX_HALF,
    );
    color1.spec_lerp(color2, stripe_factor).spec_scale(f.intensity)
}

pub fn moving_horizontal_stripes_shader(fragment: &Fragment, uniforms: &Uniforms) -> (c: Color)
    ensures
        c == spec_moving_horizontal_stripes_shader(*fragment, *uniforms),
{
    let color1 = Color::new(255, 0, 0);
    let color2 = Color::new(0, 0, 255);
    let moving_y = fx_add(
        fragment.vertex_position.y,
        fx_mul(fx_from_int(uniforms.time as i64), 131),
    );
    let stripe_factor = fx_add(
        fx_mul(fx_sin(fx_mul(fx_div(moving_y, 13107), crate::fixed::FX_PI)), FX_HALF),
        FX_HALF,
    );
    color1.lerp(&color2, stripe_factor).scale(fragment.intensity)
}

/// Red dots drifting across a light background.
pub open spec fn spec_moving_polka_dot_shader(f: Fragment, u: Uniforms) -> Color {
    let background = Color { r: 250, g: 250, b: 250 };
    let dot = Color { r: 255, g: 0, b: 0 };
    let t = spec_fx_from_int(u.time as i64);
    let moving_x = fx_add(f.vertex_position.x, fx_mul(t, 66));
    let moving_y = fx_sub(f.vertex_position.y, fx_mul(t, 33));
    let pattern_x = fx_cos(fx_mul(fx_div(moving_x, 19661), crate::fixed::FX_TAU));
    let pattern_y = fx_cos(fx_mul(fx_div(moving_y, 19661), crate::fixed::FX_TAU));
    let dot_pattern = fx_max(fx_mul(pattern_x, pattern_y), 0);
    let dot_factor = fx_div(fx_max(fx_sub(dot_pattern, 58982), 0), 6554);
    background.spec_lerp(dot, dot_factor).spec_scale(f.intensity)
}

pub fn moving_polka_dot_shader(fragment: &Fragment, uniforms: &Uniforms) -> (c: Color)
    ensures
        c == spec_moving_polka_dot_shader(*fragment, *uniforms),
{
    let background = Color::new(250, 250, 250);
    let dot = Color::new(255, 0, 0);
    let t = fx_from_int(uniforms.time as i64);
    let moving_x = fx_add(fragment.vertex_position.x, fx_mul(t, 66));
    let moving_y = fx_sub(fragment.vertex_position.y, fx_mul(t, 33));
    let pattern_x = fx_cos(fx_mul(fx_div(moving_x, 19661), crate::fixed::FX_TAU));
    let pattern_y = fx_cos(fx_mul(fx_div(moving_y, 19661), crate::fixed::FX_TAU));
    let dot_pattern = fx_max(fx_mul(pattern_x, pattern_y), 0);
    let dot_factor = fx_div(fx_max(fx_sub(dot_pattern, 58982), 0), 6554);
    background.lerp(&dot, dot_factor).scale(fragment.intensity)
}

/// One of the disco ball's five roaming lights: its closeness factor at the
/// fragment, in `[0, FX_ONE]`.
pub open spec fn spec_disco_light(i: i64, t: i64, x: i64, y: i64) -> i64 {
    let angle = fx_add(
        fx_mul(crate::fixed::FX_TAU, fx_div(spec_fx_from_int(i), spec_fx_from_int(5))),
        fx_mul(t, 3277),
    );
    let lx = fx_add(fx_mul(fx_add(fx_mul(fx_cos(angle), FX_HALF), FX_HALF), 52429), 6554);
    let ly = fx_add(fx_mul(fx_add(fx_mul(fx_sin(angle), FX_HALF), FX_HALF), 52429), 6554);
    let dist = (Vec2 { x: fx_sub(x, lx), y: fx_sub(y, ly) }).spec_magnitude();
    fx_max(fx_sub(FX_ONE, fx_min(fx_div(dist, 9830), FX_ONE)), 0)
}

fn disco_light(i: i64, t: i64, x: i64, y: i64) -> (r: i64)
    requires
        -FRAG_LIMIT <= x <= FRAG_LIMIT,
        -FRAG_LIMIT <= y <= FRAG_LIMIT,
    ensures
        r == spec_disco_light(i, t, x, y),
{
    let angle = fx_add(
        fx_mul(crate::fixed::FX_TAU, fx_div(fx_from_int(i), fx_from_int(5))),
        fx_mul(t, 3277),
    );
    let lx = fx_add(fx_mul(fx_add(fx_mul(fx_cos(angle), FX_HALF), FX_HALF), 52429), 6554);
    let ly = fx_add(fx_mul(fx_add(fx_mul(fx_sin(angle), FX_HALF), FX_HALF), 52429), 6554);
    let delta = Vec2::new(fx_sub(x, lx), fx_sub(y, ly));
    let dist = delta.magnitude();
    fx_max(fx_sub(FX_ONE, fx_min(fx_div(dist, 9830), FX_ONE)), 0)
}

/// A mirrored ball: a sine tile pattern lit by a fixed light, plus five
/// roaming highlight spots.
pub open spec fn spec_disco_ball_shader(f: Fragment, u: Uniforms) -> Result<Color, ShadeError> {
    let base = Color { r: 100, g: 100, b: 210 };
    let light = Color { r: 255, g: 255, b: 255 };
    let x = f.vertex_position.x;
    let y = f.vertex_position.y;
    let z = f.vertex_position.z;
    let ta = fx_add(fx_mul(fx_abs(fx_sin(fx_mul(x, 1310720))), FX_HALF), FX_HALF);
    let tb = fx_add(fx_mul(fx_abs(fx_sin(fx_mul(y, 2621440))), 52429), 13107);
    let tc = fx_add(fx_mul(fx_abs(fx_sin(fx_mul(z, 1310720))), FX_HALF), FX_HALF);
    let tile = fx_min(fx_mul(fx_mul(fx_mul(ta, tb), tc), 3277), FX_ONE);
    match f.normal.spec_normalized() {
        Option::None => Result::Err(ShadeError::DegenerateNormal),
        Option::Some(n) => {
            let light_intensity = fx_max(
                n.spec_dot(Vec3 { x: 0, y: 0, z: (-FX_ONE) as i64 }),
                0,
            );
            let t = spec_fx_from_int(u.time as i64);
            let lf = fx_min(
                fx_add(
                    fx_add(
                        fx_add(
                            fx_add(spec_disco_light(0, t, x, y), spec_disco_light(1, t, x, y)),
                            spec_disco_light(2, t, x, y),
                        ),
                        spec_disco_light(3, t, x, y),
                    ),
                    spec_disco_light(4, t, x, y),
                ),
                FX_ONE,
            );
            let tile_color = base.spec_lerp(light, fx_mul(tile, light_intensity));
            Result::Ok(
                tile_color.spec_lerp(light, fx_mul(lf, 45875)).spec_scale(f.intensity),
            )
        },
    }
}

pub fn disco_ball_shader(fragment: &Fragment, uniforms: &Uniforms) -> (c: Result<
    Color,
    ShadeError,
>)
    requires
        spec_fragment_in_range(*fragment),
    ensures
        c == spec_disco_ball_shader(*fragment, *uniforms),
{
    let base = Color::new(100, 100, 210);
    let light = Color::new(255, 255, 255);
    let x = fragment.vertex_position.x;
    let y = fragment.vertex_position.y;
    let z = fragment.vertex_position.z;
    let ta = fx_add(fx_mul(fx_abs(fx_sin(fx_mul(x, 1310720))), FX_HALF), FX_HALF);
    let tb = fx_add(fx_mul(fx_abs(fx_sin(fx_mul(y, 2621440))), 52429), 13107);
    let tc = fx_add(fx_mul(fx_abs(fx_sin(fx_mul(z, 1310720))), FX_HALF), FX_HALF);
    let tile = fx_min(fx_mul(fx_mul(fx_mul(ta, tb), tc), 3277), FX_ONE);
    match fragment.normal.normalized() {
        Option::None => Result::Err(ShadeError::DegenerateNormal),
        Option::Some(n) => {
            let light_intensity = fx_max(n.dot(&Vec3::new(0, 0, -FX_ONE)), 0);
            let t = fx_from_int(uniforms.time as i64);
            let lf = fx_min(
                fx_add(
                    fx_add(
                        fx_add(
                            fx_add(disco_light(0, t, x, y), disco_light(1, t, x, y)),
                            disco_light(2, t, x, y),
                        ),
                        disco_light(3, t, x, y),
                    ),
                    disco_light(4, t, x, y),
                ),
                FX_ONE,
            );
            let tile_color = base.lerp(&light, fx_mul(tile, light_intensity));
            Result::Ok(
                tile_color.lerp(&light, fx_mul(lf, 45875)).scale(fragment.intensity),
            )
        },
    }
}

/// The rocky martian surface: layered noise with a crater pattern, warm
/// colors, slow drifting light, a pulsation and a soft shadow texture.
pub open spec fn spec_mars_shader(f: Fragment, u: Uniforms) -> Color {
    let bright = Color { r: 150, g: 70, b: 30 };
    let mid = Color { r: 160, g: 80, b: 30 };
    let dark = Color { r: 100, g: 40, b: 20 };
    let px = f.vertex_position.x;
    let py = f.vertex_position.y;
    let pz = f.depth;
    let zoom: i64 = 78643200;
    let n1 = spec_noise_3d(u.noise, fx_mul(px, zoom), fx_mul(py, zoom), fx_mul(pz, zoom));
    let n2 = spec_noise_3d(
        u.noise,
        fx_mul(fx_add(px, 26214400), zoom),
        fx_mul(fx_add(py, 26214400), zoom),
        fx_mul(fx_add(pz, 26214400), zoom),
    );
    let noise_value = fx_mul(fx_add(n1, n2), FX_HALF);
    let crater = fx_mul(
        fx_mul(fx_sin(fx_mul(px, 196608)), fx_cos(fx_mul(py, 196608))),
        39322,
    );
    let combined1 = fx_clamp(fx_add(noise_value, crater), 0, FX_ONE);
    let fine = fx_mul(
        spec_noise_3d(u.noise, fx_mul(px, 163840000), fx_mul(py, 163840000), fx_mul(pz, 163840000)),
        FX_HALF,
    );
    let combined2 = fx_clamp(fx_add(combined1, fine), 0, FX_ONE);
    let fracture = fx_mul(
        spec_noise_3d(u.noise, fx_mul(px, 196608000), fx_mul(py, 196608000), fx_mul(pz, 196608000)),
        19661,
    );
    let combined3 = fx_clamp(fx_add(combined2, fracture), 0, FX_ONE);
    let base = if combined3 > FX_HALF {
        mid.spec_lerp(bright, fx_mul(fx_sub(combined3, FX_HALF), 98304))
    } else {
        dark.spec_lerp(mid, fx_mul(combined3, FX_TWO))
    };
    let t = spec_fx_from_int(u.time as i64);
    let light_factor = fx_add(
        fx_mul(fx_sin(fx_add(fx_mul(py, FX_HALF), fx_mul(t, 98))), 6554),
        FX_ONE,
    );
    let directional = fx_add(
        fx_mul(fx_cos(fx_add(fx_mul(px, 19661), fx_mul(t, 131))), 3277),
        FX_ONE,
    );
    let lit = base.spec_scale(fx_mul(light_factor, directional));
    let pulsate = fx_mul(
        fx_sin(fx_add(fx_add(fx_mul(t, 3277), fx_mul(px, 1311)), fx_mul(py, 1311))),
        6554,
    );
    let pulsed = lit.spec_scale(fx_add(FX_ONE, pulsate));
    let shadow = fx_mul(
        spec_noise_3d(u.noise, fx_mul(px, 229376000), fx_mul(py, 229376000), fx_mul(pz, 229376000)),
        26214,
    );
    pulsed.spec_scale(fx_sub(FX_ONE, shadow)).spec_scale(f.intensity)
}

pub fn mars_shader(fragment: &Fragment, uniforms: &Uniforms) -> (c: Color)
    requires
        uniforms.noise.wf(),
    ensures
        c == spec_mars_shader(*fragment, *uniforms),
{
    let bright = Color::new(150, 70, 30);
    let mid = Color::new(160, 80, 30);
    let dark = Color::new(100, 40, 20);
    let px = fragment.vertex_position.x;
    let py = fragment.vertex_position.y;
    let pz = fragment.depth;
    let zoom: i64 = 78643200;
    let n1 = uniforms.noise.get_noise_3d(fx_mul(px, zoom), fx_mul(py, zoom), fx_mul(pz, zoom));
    let n2 = uniforms.noise.get_noise_3d(
        fx_mul(fx_add(px, 26214400), zoom),
        fx_mul(fx_add(py, 26214400), zoom),
        fx_mul(fx_add(pz, 26214400), zoom),
    );
    let noise_value = fx_mul(fx_add(n1, n2), FX_HALF);
    let crater = fx_mul(
        fx_mul(fx_sin(fx_mul(px, 196608)), fx_cos(fx_mul(py, 196608))),
        39322,
    );
    let combined1 = fx_clamp(fx_add(noise_value, crater), 0, FX_ONE);
    let fine = fx_mul(
        uniforms.noise.get_noise_3d(
            fx_mul(px, 163840000),
            fx_mul(py, 163840000),
            fx_mul(pz, 163840000),
        ),
        FX_HALF,
    );
    let combined2 = fx_clamp(fx_add(combined1, fine), 0, FX_ONE);
    let fracture = fx_mul(
        uniforms.noise.get_noise_3d(
            fx_mul(px, 196608000),
            fx_mul(py, 196608000),
            fx_mul(pz, 196608000),
        ),
        19661,
    );
    let combined3 = fx_clamp(fx_add(combined2, fracture), 0, FX_ONE);
    let base = if combined3 > FX_HALF {
        mid.lerp(&bright, fx_mul(fx_sub(combined3, FX_HALF), 98304))
    } else {
        dark.lerp(&mid, fx_mul(combined3, FX_TWO))
    };
    let t = fx_from_int(uniforms.time as i64);
    let light_factor = fx_add(
        fx_mul(fx_sin(fx_add(fx_mul(py, FX_HALF), fx_mul(t, 98))), 6554),
        FX_ONE,
    );
    let directional = fx_add(
        fx_mul(fx_cos(fx_add(fx_mul(px, 19661), fx_mul(t, 131))), 3277),
        FX_ONE,
    );
    let lit = base.scale(fx_mul(light_factor, directional));
    let pulsate = fx_mul(
        fx_sin(fx_add(fx_add(fx_mul(t, 3277), fx_mul(px, 1311)), fx_mul(py, 1311))),
        6554,
    );
    let pulsed = lit.scale(fx_add(FX_ONE, pulsate));
    let shadow = fx_mul(
        uniforms.noise.get_noise_3d(
            fx_mul(px, 229376000),
            fx_mul(py, 229376000),
            fx_mul(pz, 229376000),
        ),
        26214,
    );
    pulsed.scale(fx_sub(FX_ONE, shadow)).scale(fragment.intensity)
}

pub fn mars_shader_wrapper(fragment: &Fragment, uniforms: &Uniforms) -> (c: Color)
    requires
        uniforms.noise.wf(),
    ensures
        c == spec_mars_shader(*fragment, *uniforms),
{
    mars_shader(fragment, uniforms)
}

/// The earth: land or water picked by surface noise, diffuse sunlight, and
/// an animated cloud layer from the secondary noise field blended on top.
pub open spec fn spec_earth_shader_wrapper(f: Fragment, u: Uniforms) -> Result<
    Color,
    ShadeError,
> {
    let t = spec_fx_from_int(u.time as i64);
    let x = f.vertex_position.x;
    let y = f.vertex_position.y;
    let moving_x = fx_add(x, fx_mul(t, 13107));
    let moving_y = fx_add(y, fx_mul(t, 6554));
    let base_noise = spec_noise_2d(u.noise, x, y);
    let cloud_noise = spec_noise_2d(
        u.cloud_noise,
        fx_mul(moving_x, 6553600),
        fx_mul(moving_y, 6553600),
    );
    let water1 = Color::spec_from_fx(0, 6554, 39322);
    let water2 = Color::spec_from_fx(0, 19661, 45875);
    let land1 = Color::spec_from_fx(6554, 32768, 0);
    let land2 = Color::spec_from_fx(13107, 52429, 13107);
    let cloud = Color::spec_from_fx(58982, 58982, 58982);
    let base = if base_noise > 19661 {
        land1.spec_lerp(land2, fx_div(fx_sub(base_noise, 19661), 45875))
    } else {
        water1.spec_lerp(water2, fx_div(base_noise, 19661))
    };
    let light_position = Vec3 { x: FX_ONE, y: FX_ONE, z: (3 * FX_ONE) as i64 };
    match light_position.spec_minus(f.vertex_position).spec_normalized() {
        Option::None => Result::Err(ShadeError::DegenerateNormal),
        Option::Some(light_dir) => match f.normal.spec_normalized() {
            Option::None => Result::Err(ShadeError::DegenerateNormal),
            Option::Some(n) => {
                let diffuse = fx_max(n.spec_dot(light_dir), 0);
                let lit = base.spec_scale(fx_add(6554, fx_mul(58982, diffuse)));
                let opacity = fx_add(
                    52429,
                    fx_mul(
                        13107,
                        fx_abs(fx_sin(fx_mul(fx_div(t, spec_fx_from_int(1000)), FX_HALF))),
                    ),
                );
                if cloud_noise > 6554 {
                    let intensity = fx_clamp(
                        fx_div(fx_sub(cloud_noise, 6554), 58982),
                        0,
                        FX_ONE,
                    );
                    Result::Ok(
                        lit.spec_blend_add(cloud.spec_scale(fx_mul(intensity, opacity))),
                    )
                } else {
                    Result::Ok(lit)
                }
            },
        },
    }
}

pub fn earth_shader_wrapper(fragment: &Fragment, uniforms: &Uniforms) -> (c: Result<
    Color,
    ShadeError,
>)
    requires
        uniforms.noise.wf(),
        uniforms.cloud_noise.wf(),
        spec_fragment_in_range(*fragment),
    ensures
        c == spec_earth_shader_wrapper(*fragment, *uniforms),
{
    let t = fx_from_int(uniforms.time as i64);
    let x = fragment.vertex_position.x;
    let y = fragment.vertex_position.y;
    let moving_x = fx_add(x, fx_mul(t, 13107));
    let moving_y = fx_add(y, fx_mul(t, 6554));
    let base_noise = uniforms.noise.get_noise_2d(x, y);
    let cloud_noise = uniforms.cloud_noise.get_noise_2d(
        fx_mul(moving_x, 6553600),
        fx_mul(moving_y, 6553600),
    );
    let water1 = Color::from_fx(0, 6554, 39322);
    let water2 = Color::from_fx(0, 19661, 45875);
    let land1 = Color::from_fx(6554, 32768, 0);
    let land2 = Color::from_fx(13107, 52429, 13107);
    let cloud = Color::from_fx(58982, 58982, 58982);
    let base = if base_noise > 19661 {
        land1.lerp(&land2, fx_div(fx_sub(base_noise, 19661), 45875))
    } else {
        water1.lerp(&water2, fx_div(base_noise, 19661))
    };
    let light_position = Vec3::new(FX_ONE, FX_ONE, 3 * FX_ONE);
    match light_position.minus(&fragment.vertex_position).normalized() {
        Option::None => Result::Err(ShadeError::DegenerateNormal),
        Option::Some(light_dir) => match fragment.normal.normalized() {
            Option::None => Result::Err(ShadeError::DegenerateNormal),
            Option::Some(n) => {
                let diffuse = fx_max(n.dot(&light_dir), 0);
                let lit = base.scale(fx_add(6554, fx_mul(58982, diffuse)));
                let opacity = fx_add(
                    52429,
                    fx_mul(
                        13107,
                        fx_abs(fx_sin(fx_mul(fx_div(t, fx_from_int(1000)), FX_HALF))),
                    ),
                );
                if cloud_noise > 6554 {
                    let intensity = fx_clamp(
                        fx_div(fx_sub(cloud_noise, 6554), 58982),
                        0,
                        FX_ONE,
                    );
                    Result::Ok(lit.blend_add(&cloud.scale(fx_mul(intensity, opacity))))
                } else {
                    Result::Ok(lit)
                }
            },
        },
    }
}

/// One of the gas giants' three band colors, by index modulo three.
pub open spec fn spec_band_color(i: i64) -> Color {
    let r = spec_fx_rem(i, 3);
    if r == 0 {
        Color::spec_from_hex(0xc6bcad)
    } else if r == 1 {
        Color::spec_from_hex(0x955d36)
    } else {
        Color::spec_from_hex(0xc7c7cf)
    }
}

fn band_color(i: i64) -> (c: Color)
    ensures
        c == spec_band_color(i),
{
    let r = fx_rem(i, 3);
    if r == 0 {
        Color::from_hex(0xc6bcad)
    } else if r == 1 {
        Color::from_hex(0x955d36)
    } else {
        Color::from_hex(0xc7c7cf)
    }
}

/// The banded gas-giant surface shared by the jupiter and saturn shaders:
/// a latitude distorted by noise picks between three band colors, with a
/// turbulence wash and an ambient-plus-diffuse light.
pub open spec fn spec_banded_gas_shader(f: Fragment, u: Uniforms) -> Result<
    (Color, u32),
    ShadeError,
> {
    let latitude = f.vertex_position.y;
    let band_noise = spec_noise_2d(
        u.noise,
        fx_mul(f.vertex_position.x, FX_TWO),
        fx_mul(f.vertex_position.y, FX_TWO),
    );
    let distorted = fx_add(latitude, fx_mul(band_noise, 13107));
    let band_pattern = fx_sin(fx_mul(distorted, 655360));
    let normalized_band = fx_mul(fx_mul(fx_add(band_pattern, FX_ONE), FX_HALF), FX_TWO);
    let index = spec_fx_floor(normalized_band);
    let tfrac = spec_fx_fract(normalized_band);
    let base = spec_band_color(index).spec_lerp(
        spec_band_color(spec_fx_add(index, 1)),
        tfrac,
    );
    let turbulence = base.spec_lerp(Color::spec_from_hex(0xffffff), 19661);
    let light_position = Vec3 { x: 0, y: (8 * FX_ONE) as i64, z: (9 * FX_ONE) as i64 };
    match light_position.spec_minus(f.vertex_position).spec_normalized() {
        Option::None => Result::Err(ShadeError::DegenerateNormal),
        Option::Some(light_dir) => match f.normal.spec_normalized() {
            Option::None => Result::Err(ShadeError::DegenerateNormal),
            Option::Some(n) => {
                let diffuse = fx_max(n.spec_dot(light_dir), 0);
                let ambient = turbulence.spec_scale(9830);
                let lit = turbulence.spec_scale(diffuse);
                Result::Ok((ambient.spec_blend_add(lit), 0u32))
            },
        },
    }
}

fn banded_gas_shader(fragment: &Fragment, uniforms: &Uniforms) -> (c: Result<
    (Color, u32),
    ShadeError,
>)
    requires
        uniforms.noise.wf(),
        spec_fragment_in_range(*fragment),
    ensures
        c == spec_banded_gas_shader(*fragment, *uniforms),
{
    let latitude = fragment.vertex_position.y;
    let band_noise = uniforms.noise.get_noise_2d(
        fx_mul(fragment.vertex_position.x, FX_TWO),
        fx_mul(fragment.vertex_position.y, FX_TWO),
    );
    let distorted = fx_add(latitude, fx_mul(band_noise, 13107));
    let band_pattern = fx_sin(fx_mul(distorted, 655360));
    let normalized_band = fx_mul(fx_mul(fx_add(band_pattern, FX_ONE), FX_HALF), FX_TWO);
    let index = fx_floor(normalized_band);
    let tfrac = fx_fract(normalized_band);
    let base = band_color(index).lerp(&band_color(fx_add(index, 1)), tfrac);
    let turbulence = base.lerp(&Color::from_hex(0xffffff), 19661);
    let light_position = Vec3::new(0, 8 * FX_ONE, 9 * FX_ONE);
    match light_position.minus(&fragment.vertex_position).normalized() {
        Option::None => Result::Err(ShadeError::DegenerateNormal),
        Option::Some(light_dir) => match fragment.normal.normalized() {
            Option::None => Result::Err(ShadeError::DegenerateNormal),
            Option::Some(n) => {
                let diffuse = fx_max(n.dot(&light_dir), 0);
                let ambient = turbulence.scale(9830);
                let lit = turbulence.scale(diffuse);
                Result::Ok((ambient.blend_add(&lit), 0u32))
            },
        },
    }
}

/// Jupiter's bands; the trailing counter rides along unchanged.
pub fn jupiter_shader(fragment: &Fragment, uniforms: &Uniforms, time: u32) -> (c: Result<
    (Color, u32),
    ShadeError,
>)
    requires
        uniforms.noise.wf(),
        spec_fragment_in_range(*fragment),
    ensures
        c == spec_banded_gas_shader(*fragment, *uniforms),
{
    let _ = time;
    banded_gas_shader(fragment, uniforms)
}

pub fn jupiter_shader_wrapper(fragment: &Fragment, uniforms: &Uniforms) -> (c: Result<
    Color,
    ShadeError,
>)
    requires
        uniforms.noise.wf(),
        spec_fragment_in_range(*fragment),
    ensures
        c == (match spec_banded_gas_shader(*fragment, *uniforms) {
            Result::Ok(pair) => Result::<Color, ShadeError>::Ok(pair.0),
            Result::Err(e) => Result::<Color, ShadeError>::Err(e),
        }),
{
    match jupiter_shader(fragment, uniforms, 0) {
        Result::Ok((color, _extra)) => Result::Ok(color),
        Result::Err(e) => Result::Err(e),
    }
}

/// Saturn's bands follow the same banded algorithm as jupiter's.
pub fn saturn_shader(fragment: &Fragment, uniforms: &Uniforms, time: u32) -> (c: Result<
    (Color, u32),
    ShadeError,
>)
    requires
        uniforms.noise.wf(),
        spec_fragment_in_range(*fragment),
    ensures
        c == spec_banded_gas_shader(*fragment, *uniforms),
{
    let _ = time;
    banded_gas_shader(fragment, uniforms)
}

pub fn saturn_shader_wrapper(fragment: &Fragment, uniforms: &Uniforms) -> (c: Result<
    Color,
    ShadeError,
>)
    requires
        uniforms.noise.wf(),
        spec_fragment_in_range(*fragment),
    ensures
        c == (match spec_banded_gas_shader(*fragment, *uniforms) {
            Result::Ok(pair) => Result::<Color, ShadeError>::Ok(pair.0),
            Result::Err(e) => Result::<Color, ShadeError>::Err(e),
        }),
{
    match jupiter_shader(fragment, uniforms, 0) {
        Result::Ok((color, _extra)) => Result::Ok(color),
        Result::Err(e) => Result::Err(e),
    }
}

/// Mercury's cratered grays: noise blends three grays, lit by an
/// ambient-plus-diffuse light.
pub open spec fn spec_mercury_shader(f: Fragment, u: Uniforms) -> Result<
    (Color, u32),
    ShadeError,
> {
    let n = spec_noise_2d(u.noise, f.vertex_position.x, f.vertex_position.y);
    let gray_light = Color::spec_from_fx(45875, 45875, 45875);
    let gray_dark = Color::spec_from_fx(26214, 26214, 26214);
    let brown = Color::spec_from_fx(32768, 26214, 19661);
    let lerp_factor = fx_clamp(n, 0, FX_ONE);
    let base = gray_light.spec_lerp(gray_dark, lerp_factor).spec_lerp(
        brown,
        fx_mul(lerp_factor, FX_HALF),
    );
    let light_pos = Vec3 { x: 0, y: (8 * FX_ONE) as i64, z: (9 * FX_ONE) as i64 };
    match light_pos.spec_minus(f.vertex_position).spec_normalized() {
        Option::None => Result::Err(ShadeError::DegenerateNormal),
        Option::Some(light_dir) => match f.normal.spec_normalized() {
            Option::None => Result::Err(ShadeError::DegenerateNormal),
            Option::Some(nu) => {
                let diffuse = fx_max(nu.spec_dot(light_dir), 0);
                let lit = base.spec_scale(diffuse);
                let ambient = base.spec_scale(13107);
                Result::Ok((ambient.spec_blend_add(lit), 0u32))
            },
        },
    }
}

pub fn mercury_shader(fragment: &Fragment, uniforms: &Uniforms, time: u32) -> (c: Result<
    (Color, u32),
    ShadeError,
>)
    requires
        uniforms.noise.wf(),
        spec_fragment_in_range(*fragment),
    ensures
        c == spec_mercury_shader(*fragment, *uniforms),
{
    let _ = time;
    let n = uniforms.noise.get_noise_2d(fragment.vertex_position.x, fragment.vertex_position.y);
    let gray_light = Color::from_fx(45875, 45875, 45875);
    let gray_dark = Color::from_fx(26214, 26214, 26214);
    let brown = Color::from_fx(32768, 26214, 19661);
    let lerp_factor = fx_clamp(n, 0, FX_ONE);
    let base = gray_light.lerp(&gray_dark, lerp_factor).lerp(
        &brown,
        fx_mul(lerp_factor, FX_HALF),
    );
    let light_pos = Vec3::new(0, 8 * FX_ONE, 9 * FX_ONE);
    match light_pos.minus(&fragment.vertex_position).normalized() {
        Option::None => Result::Err(ShadeError::DegenerateNormal),
        Option::Some(light_dir) => match fragment.normal.normalized() {
            Option::None => Result::Err(ShadeError::DegenerateNormal),
            Option::Some(nu) => {
                let diffuse = fx_max(nu.dot(&light_dir), 0);
                let lit = base.scale(diffuse);
                let ambient = base.scale(13107);
                Result::Ok((ambient.blend_add(&lit), 0u32))
            },
        },
    }
}

/// Uranus: light blue varied by slow-moving noise, with ambient-floored
/// diffuse light from a fixed direction.
pub open spec fn spec_uranus_shader(f: Fragment, u: Uniforms) -> Result<
    (Color, u32),
    ShadeError,
> {
    let x = f.vertex_position.x;
    let y = f.vertex_position.y;
    let z = f.vertex_position.z;
    let t = fx_mul(spec_fx_from_int(u.time as i64), 66);
    let n = spec_noise_3d(u.noise, x, fx_add(y, t), z);
    let base = Color::spec_from_fx(13107, 32768, 58982);
    let intensity = fx_clamp(fx_add(fx_mul(n, FX_HALF), FX_HALF), 0, FX_ONE);
    let varied = base.spec_scale(intensity);
    match (Vec3 { x: FX_ONE, y: FX_ONE, z: FX_ONE }).spec_normalized() {
        Option::None => Result::Err(ShadeError::DegenerateNormal),
        Option::Some(light_dir) => match f.normal.spec_normalized() {
            Option::None => Result::Err(ShadeError::DegenerateNormal),
            Option::Some(nu) => {
                let diffuse = fx_max(nu.spec_dot(light_dir), 0);
                let lit = varied.spec_scale(fx_add(19661, fx_mul(45875, diffuse)));
                Result::Ok((lit, 0u32))
            },
        },
    }
}

pub fn uranus_shader(fragment: &Fragment, uniforms: &Uniforms, time: u32) -> (c: Result<
    (Color, u32),
    ShadeError,
>)
    requires
        uniforms.noise.wf(),
        spec_fragment_in_range(*fragment),
    ensures
        c == spec_uranus_shader(*fragment, *uniforms),
{
    let _ = time;
    let x = fragment.vertex_position.x;
    let y = fragment.vertex_position.y;
    let z = fragment.vertex_position.z;
    let t = fx_mul(fx_from_int(uniforms.time as i64), 66);
    let n = uniforms.noise.get_noise_3d(x, fx_add(y, t), z);
    let base = Color::from_fx(13107, 32768, 58982);
    let intensity = fx_clamp(fx_add(fx_mul(n, FX_HALF), FX_HALF), 0, FX_ONE);
    let varied = base.scale(intensity);
    match Vec3::new(FX_ONE, FX_ONE, FX_ONE).normalized() {
        Option::None => Result::Err(ShadeError::DegenerateNormal),
        Option::Some(light_dir) => match fragment.normal.normalized() {
            Option::None => Result::Err(ShadeError::DegenerateNormal),
            Option::Some(nu) => {
                let diffuse = fx_max(nu.dot(&light_dir), 0);
                let lit = varied.scale(fx_add(19661, fx_mul(45875, diffuse)));
                Result::Ok((lit, 0u32))
            },
        },
    }
}

pub fn uranus_shader_wrapper(fragment: &Fragment, uniforms: &Uniforms) -> (c: Result<
    Color,
    ShadeError,
>)
    requires
        uniforms.noise.wf(),
        spec_fragment_in_range(*fragment),
    ensures
        c == (match spec_uranus_shader(*fragment, *uniforms) {
            Result::Ok(pair) => Result::<Color, ShadeError>::Ok(pair.0),
            Result::Err(e) => Result::<Color, ShadeError>::Err(e),
        }),
{
    match uranus_shader(fragment, uniforms, 0) {
        Result::Ok((color, _extra)) => Result::Ok(color),
        Result::Err(e) => Result::Err(e),
    }
}

/// One of the ring's five band colors, by radial band index modulo five.
pub open spec fn spec_ring_color(i: i64) -> Color {
    let r = spec_fx_rem(i, 5);
    if r == 0 {
        Color { r: 225, g: 190, b: 160 }
    } else if r == 1 {
        Color { r: 245, g: 230, b: 200 }
    } else if r == 2 {
        Color { r: 255, g: 255, b: 240 }
    } else if r == 3 {
        Color { r: 200, g: 180, b: 150 }
    } else {
        Color { r: 230, g: 210, b: 190 }
    }
}

fn ring_color(i: i64) -> (c: Color)
    ensures
        c == spec_ring_color(i),
{
    let r = fx_rem(i, 5);
    if r == 0 {
        Color::new(225, 190, 160)
    } else if r == 1 {
        Color::new(245, 230, 200)
    } else if r == 2 {
        Color::new(255, 255, 240)
    } else if r == 3 {
        Color::new(200, 180, 150)
    } else {
        Color::new(230, 210, 190)
    }
}

/// Saturn's rings: concentric color bands by radial distance in the xz
/// plane, edges softened, lit and dusted with a little noise.
pub open spec fn spec_saturn_ring_shader(f: Fragment, u: Uniforms) -> Result<Color, ShadeError> {
    let rx = f.vertex_position.x;
    let rz = f.vertex_position.z;
    let dist = (Vec2 { x: rx, y: rz }).spec_magnitude();
    let band_width: i64 = 12288;
    let band_index = spec_fx_floor(fx_div(dist, band_width));
    let base = spec_ring_color(band_index);
    let edge_distance = fx_div(spec_fx_rem(dist, band_width), band_width);
    let smooth_edge = fx_clamp(fx_sub(FX_ONE, edge_distance), 0, FX_ONE);
    let light_position = Vec3 { x: FX_ONE, y: FX_ONE, z: (3 * FX_ONE) as i64 };
    match light_position.spec_minus(f.vertex_position).spec_normalized() {
        Option::None => Result::Err(ShadeError::DegenerateNormal),
        Option::Some(light_dir) => match f.normal.spec_normalized() {
            Option::None => Result::Err(ShadeError::DegenerateNormal),
            Option::Some(n) => {
                let diffuse = fx_max(n.spec_dot(light_dir), 0);
                let light_factor = fx_add(19661, fx_mul(45875, diffuse));
                let lit = base.spec_scale(smooth_edge).spec_scale(light_factor);
                let dust = fx_mul(
                    spec_noise_2d(u.noise, fx_mul(rx, 655360), fx_mul(rz, 655360)),
                    6554,
                );
                Result::Ok(lit.spec_scale(fx_add(FX_ONE, dust)))
            },
        },
    }
}

pub fn saturn_ring_shader(fragment: &Fragment, uniforms: &Uniforms) -> (c: Result<
    Color,
    ShadeError,
>)
    requires
        uniforms.noise.wf(),
        spec_fragment_in_range(*fragment),
    ensures
        c == spec_saturn_ring_shader(*fragment, *uniforms),
{
    let rx = fragment.vertex_position.x;
    let rz = fragment.vertex_position.z;
    let ring_position = Vec2::new(rx, rz);
    let dist = ring_position.magnitude();
    let band_width: i64 = 12288;
    let band_index = fx_floor(fx_div(dist, band_width));
    let base = ring_color(band_index);
    let edge_distance = fx_div(fx_rem(dist, band_width), band_width);
    let smooth_edge = fx_clamp(fx_sub(FX_ONE, edge_distance), 0, FX_ONE);
    let light_position = Vec3::new(FX_ONE, FX_ONE, 3 * FX_ONE);
    match light_position.minus(&fragment.vertex_position).normalized() {
        Option::None => Result::Err(ShadeError::DegenerateNormal),
        Option::Some(light_dir) => match fragment.normal.normalized() {
            Option::None => Result::Err(ShadeError::DegenerateNormal),
            Option::Some(n) => {
                let diffuse = fx_max(n.dot(&light_dir), 0);
                let light_factor = fx_add(19661, fx_mul(45875, diffuse));
                let lit = base.scale(smooth_edge).scale(light_factor);
                let dust = fx_mul(
                    uniforms.noise.get_noise_2d(fx_mul(rx, 655360), fx_mul(rz, 655360)),
                    6554,
                );
                Result::Ok(lit.scale(fx_add(FX_ONE, dust)))
            },
        },
    }
}

/// Mercury's rocky gray-gold surface: layered noise with a crater pattern
/// as on mars, but lit by a fixed light with an ambient floor, shadowed
/// and pulsating.
pub open spec fn spec_mercury_shader_wrapper(f: Fragment, u: Uniforms) -> Result<
    Color,
    ShadeError,
> {
    let bright = Color::spec_from_fx(58982, 58982, 58982);
    let mid = Color::spec_from_fx(39322, 36045, 26214);
    let dark = Color::spec_from_fx(19661, 13107, 6554);
    let px = f.vertex_position.x;
    let py = f.vertex_position.y;
    let pz = f.depth;
    let zoom: i64 = 78643200;
    let n1 = spec_noise_3d(u.noise, fx_mul(px, zoom), fx_mul(py, zoom), fx_mul(pz, zoom));
    let n2 = spec_noise_3d(
        u.noise,
        fx_mul(fx_add(px, 26214400), zoom),
        fx_mul(fx_add(py, 26214400), zoom),
        fx_mul(fx_add(pz, 26214400), zoom),
    );
    let noise_value = fx_mul(fx_add(n1, n2), FX_HALF);
    let crater = fx_clamp(
        fx_mul(fx_mul(fx_sin(fx_mul(px, 229376)), fx_cos(fx_mul(py, 229376))), FX_HALF),
        0,
        FX_ONE,
    );
    let combined1 = fx_clamp(fx_add(noise_value, crater), 0, FX_ONE);
    let fine = fx_mul(
        spec_noise_3d(u.noise, fx_mul(px, 163840000), fx_mul(py, 163840000), fx_mul(pz, 163840000)),
        FX_HALF,
    );
    let combined2 = fx_clamp(fx_add(combined1, fine), 0, FX_ONE);
    let fracture = fx_mul(
        spec_noise_3d(u.noise, fx_mul(px, 196608000), fx_mul(py, 196608000), fx_mul(pz, 196608000)),
        19661,
    );
    let combined3 = fx_clamp(fx_add(combined2, fracture), 0, FX_ONE);
    let base = if combined3 > FX_HALF {
        mid.spec_lerp(bright, fx_mul(fx_sub(combined3, FX_HALF), FX_TWO))
    } else {
        dark.spec_lerp(mid, fx_mul(combined3, FX_TWO))
    };
    let light_position = Vec3 { x: 0, y: 0, z: (5 * FX_ONE) as i64 };
    match light_position.spec_minus(f.vertex_position).spec_normalized() {
        Option::None => Result::Err(ShadeError::DegenerateNormal),
        Option::Some(light_dir) => match f.normal.spec_normalized() {
            Option::None => Result::Err(ShadeError::DegenerateNormal),
            Option::Some(n) => {
                let diffuse = fx_max(n.spec_dot(light_dir), 0);
                let lit = base.spec_scale(fx_add(19661, fx_mul(45875, diffuse)));
                let shadow = fx_mul(
                    spec_noise_3d(
                        u.noise,
                        fx_mul(px, 229376000),
                        fx_mul(py, 229376000),
                        fx_mul(pz, 229376000),
                    ),
                    26214,
                );
                let shadowed = lit.spec_scale(fx_sub(FX_ONE, shadow));
                let t = spec_fx_from_int(u.time as i64);
                let pulsate = fx_mul(
                    fx_sin(fx_add(fx_add(fx_mul(t, 3277), fx_mul(px, 1311)), fx_mul(py, 1311))),
                    5243,
                );
                Result::Ok(
                    shadowed.spec_scale(fx_add(FX_ONE, pulsate)).spec_scale(f.intensity),
                )
            },
        },
    }
}

pub fn mercury_shader_wrapper(fragment: &Fragment, uniforms: &Uniforms) -> (c: Result<
    Color,
    ShadeError,
>)
    requires
        uniforms.noise.wf(),
        spec_fragment_in_range(*fragment),
    ensures
        c == spec_mercury_shader_wrapper(*fragment, *uniforms),
{
    let bright = Color::from_fx(58982, 58982, 58982);
    let mid = Color::from_fx(39322, 36045, 26214);
    let dark = Color::from_fx(19661, 13107, 6554);
    let px = fragment.vertex_position.x;
    let py = fragment.vertex_position.y;
    let pz = fragment.depth;
    let zoom: i64 = 78643200;
    let n1 = uniforms.noise.get_noise_3d(fx_mul(px, zoom), fx_mul(py, zoom), fx_mul(pz, zoom));
    let n2 = uniforms.noise.get_noise_3d(
        fx_mul(fx_add(px, 26214400), zoom),
        fx_mul(fx_add(py, 26214400), zoom),
        fx_mul(fx_add(pz, 26214400), zoom),
    );
    let noise_value = fx_mul(fx_add(n1, n2), FX_HALF);
    let crater = fx_clamp(
        fx_mul(fx_mul(fx_sin(fx_mul(px, 229376)), fx_cos(fx_mul(py, 229376))), FX_HALF),
        0,
        FX_ONE,
    );
    let combined1 = fx_clamp(fx_add(noise_value, crater), 0, FX_ONE);
    let fine = fx_mul(
        uniforms.noise.get_noise_3d(
            fx_mul(px, 163840000),
            fx_mul(py, 163840000),
            fx_mul(pz, 163840000),
        ),
        FX_HALF,
    );
    let combined2 = fx_clamp(fx_add(combined1, fine), 0, FX_ONE);
    let fracture = fx_mul(
        uniforms.noise.get_noise_3d(
            fx_mul(px, 196608000),
            fx_mul(py, 196608000),
            fx_mul(pz, 196608000),
        ),
        19661,
    );
    let combined3 = fx_clamp(fx_add(combined2, fracture), 0, FX_ONE);
    let base = if combined3 > FX_HALF {
        mid.lerp(&bright, fx_mul(fx_sub(combined3, FX_HALF), FX_TWO))
    } else {
        dark.lerp(&mid, fx_mul(combined3, FX_TWO))
    };
    let light_position = Vec3::new(0, 0, 5 * FX_ONE);
    match light_position.minus(&fragment.vertex_position).normalized() {
        Option::None => Result::Err(ShadeError::DegenerateNormal),
        Option::Some(light_dir) => match fragment.normal.normalized() {
            Option::None => Result::Err(ShadeError::DegenerateNormal),
            Option::Some(n) => {
                let diffuse = fx_max(n.dot(&light_dir), 0);
                let lit = base.scale(fx_add(19661, fx_mul(45875, diffuse)));
                let shadow = fx_mul(
                    uniforms.noise.get_noise_3d(
                        fx_mul(px, 229376000),
                        fx_mul(py, 229376000),
                        fx_mul(pz, 229376000),
                    ),
                    26214,
                );
                let shadowed = lit.scale(fx_sub(FX_ONE, shadow));
                let t = fx_from_int(uniforms.time as i64);
                let pulsate = fx_mul(
                    fx_sin(fx_add(fx_add(fx_mul(t, 3277), fx_mul(px, 1311)), fx_mul(py, 1311))),
                    5243,
                );
                Result::Ok(
                    shadowed.scale(fx_add(FX_ONE, pulsate)).scale(fragment.intensity),
                )
            },
        },
    }
}

/// The color the dispatch produces for a material at a fragment, or the
/// degenerate-vector error where the material's shader detects one; the
/// plain-color shaders never fail.
#[verifier::opaque]
pub open spec fn spec_shade(m: Material, f: Fragment, u: Uniforms) -> Result<Color, ShadeError> {
    match m {
        Material::Sun => Result::Ok(spec_sun_shader(f, u)),
        Material::Mars => Result::Ok(spec_mars_shader(f, u)),
        Material::HorizontalStripes => Result::Ok(spec_moving_horizontal_stripes_shader(f, u)),
        Material::PolkaDot => Result::Ok(spec_moving_polka_dot_shader(f, u)),
        Material::DiscoBall => spec_disco_ball_shader(f, u),
        Material::ColorCycling => Result::Ok(spec_time_based_color_cycling_shader(f, u)),
        Material::Jupiter => match spec_banded_gas_shader(f, u) {
            Result::Ok(pair) => Result::Ok(pair.0),
            Result::Err(e) => Result::Err(e),
        },
        Material::Saturn => match spec_banded_gas_shader(f, u) {
            Result::Ok(pair) => Result::Ok(pair.0),
            Result::Err(e) => Result::Err(e),
        },
        Material::SaturnRing => spec_saturn_ring_shader(f, u),
        Material::Mercury => spec_mercury_shader_wrapper(f, u),
        Material::Uranus => match spec_uranus_shader(f, u) {
            Result::Ok(pair) => Result::Ok(pair.0),
            Result::Err(e) => Result::Err(e),
        },
        Material::Earth => spec_earth_shader_wrapper(f, u),
    }
}

/// The shading dispatch: one closed switch from the selected material to
/// its shader, applied uniformly to every fragment of a render call.
pub fn shade(material: Material, fragment: &Fragment, uniforms: &Uniforms) -> (c: Result<
    Color,
    ShadeError,
>)
    requires
        uniforms.wf(),
        spec_fragment_in_range(*fragment),
    ensures
        c == spec_shade(material, *fragment, *uniforms),
{
    proof {
        reveal(spec_shade);
    }
    match material {
        Material::Sun => Result::Ok(sun_shader(fragment, uniforms)),
        Material::Mars => Result::Ok(mars_shader(fragment, uniforms)),
        Material::HorizontalStripes => Result::Ok(
            moving_horizontal_stripes_shader(fragment, uniforms),
        ),
        Material::PolkaDot => Result::Ok(moving_polka_dot_shader(fragment, uniforms)),
        Material::DiscoBall => disco_ball_shader(fragment, uniforms),
        Material::ColorCycling => Result::Ok(time_based_color_cycling_shader(fragment, uniforms)),
        Material::Jupiter => jupiter_shader_wrapper(fragment, uniforms),
        Material::Saturn => saturn_shader_wrapper(fragment, uniforms),
        Material::SaturnRing => saturn_ring_shader(fragment, uniforms),
        Material::Mercury => mercury_shader_wrapper(fragment, uniforms),
        Material::Uranus => uranus_shader_wrapper(fragment, uniforms),
        Material::Earth => earth_shader_wrapper(fragment, uniforms),
    }
}

} // verus!
