//! The vertex transform stage and the matrix builders that feed it.
//!
//! A vertex is lifted to homogeneous form, pushed through
//! `projection * view * model`, perspective-divided, and mapped to pixel
//! space by the viewport matrix; its normal is transformed by the
//! transposed inverse of the model matrix's linear part, falling back to
//! the identity when that part is singular.

use crate::fixed::{fx_cos, fx_div, fx_from_int, fx_mul, fx_sin, fx_sub, FX_ONE, FX_TWO};
use crate::linalg::{Mat3, Mat4, Vec3, Vec4, VEC_LIMIT};
use crate::uniforms::Uniforms;
use crate::vertex::Vertex;
use vstd::prelude::*;

verus! {

/// Camera and viewport inputs to the matrix builders stay within this
/// bound, so the look-at construction can normalize its axes.
pub const VIEW_LIMIT: i64 = 0x100_0000_0000;

/// Half of the fixed 70-degree vertical field of view, in fixed-point
/// radians.
pub const HALF_FOV: i64 = 40038;

/// The near plane (one tenth) in fixed-point units.
pub const PERSPECTIVE_NEAR: i64 = 6554;

/// The far plane (one thousand) in fixed-point units.
pub const PERSPECTIVE_FAR: i64 = 65536000;

/// The homogeneous clip-space position of a vertex under the uniforms'
/// transform chain.
pub open spec fn spec_clip_position(v: Vertex, u: Uniforms) -> Vec4 {
    let pos4 = Vec4 { x: v.position.x, y: v.position.y, z: v.position.z, w: FX_ONE };
    u.projection_matrix.spec_matmul(u.view_matrix).spec_matmul(u.model_matrix).spec_apply(pos4)
}

/// The matrix the normal is transformed by: the transposed inverse of the
/// model matrix's linear part, or the identity when that is singular.
pub open spec fn spec_normal_matrix(u: Uniforms) -> Mat3 {
    match u.model_matrix.spec_linear_part().spec_transpose().spec_inverse() {
        Option::Some(m) => m,
        Option::None => Mat3::spec_identity(),
    }
}

/// The transform stage: screen position with depth kept in z, and the
/// normal moved by the normal matrix. Nothing (an undefined vertex) when
/// the homogeneous w vanishes, which the caller must tolerate.
#[verifier::opaque]
pub open spec fn spec_vertex_shader(v: Vertex, u: Uniforms) -> Option<Vertex> {
    let clip = spec_clip_position(v, u);
    if clip.w == 0 {
        Option::None
    } else {
        let ndc = Vec4 {
            x: fx_div(clip.x, clip.w),
            y: fx_div(clip.y, clip.w),
            z: fx_div(clip.z, clip.w),
            w: FX_ONE,
        };
        let screen = u.viewport_matrix.spec_apply(ndc);
        Option::Some(
            Vertex {
                position: v.position,
                normal: v.normal,
                tex_coords: v.tex_coords,
                color: v.color,
                transformed_position: Vec3 { x: screen.x, y: screen.y, z: screen.z },
                transformed_normal: spec_normal_matrix(u).spec_apply(v.normal),
            },
        )
    }
}

/// Transforms one vertex; see `spec_vertex_shader`.
pub fn vertex_shader(vertex: &Vertex, uniforms: &Uniforms) -> (r: Option<Vertex>)
    ensures
        r == spec_vertex_shader(*vertex, *uniforms),
        r is None <==> spec_clip_position(*vertex, *uniforms).w == 0,
{
    proof {
        reveal(spec_vertex_shader);
    }
    let pos4 = Vec4 {
        x: vertex.position.x,
        y: vertex.position.y,
        z: vertex.position.z,
        w: FX_ONE,
    };
    let pv = uniforms.projection_matrix.matmul(&uniforms.view_matrix);
    let pvm = pv.matmul(&uniforms.model_matrix);
    let clip = pvm.apply(&pos4);
    if clip.w == 0 {
        Option::None
    } else {
        let ndc = Vec4 {
            x: fx_div(clip.x, clip.w),
            y: fx_div(clip.y, clip.w),
            z: fx_div(clip.z, clip.w),
            w: FX_ONE,
        };
        let screen = uniforms.viewport_matrix.apply(&ndc);
        let normal_matrix = match uniforms.model_matrix.linear_part().transpose().inverse() {
            Option::Some(m) => m,
            Option::None => Mat3::identity(),
        };
        Option::Some(
            Vertex {
                position: vertex.position,
                normal: vertex.normal,
                tex_coords: vertex.tex_coords,
                color: vertex.color,
                transformed_position: Vec3 { x: screen.x, y: screen.y, z: screen.z },
                transformed_normal: normal_matrix.apply(&vertex.normal),
            },
        )
    }
}

/// With the identity model, view, projection and viewport matrices the
/// transform stage moves nothing: the screen position is the object-space
/// position, depth included, and the normal is unchanged.
pub proof fn lemma_identity_transform_round_trip(v: Vertex, u: Uniforms)
    requires
        u.model_matrix == Mat4::spec_identity(),
        u.view_matrix == Mat4::spec_identity(),
        u.projection_matrix == Mat4::spec_identity(),
        u.viewport_matrix == Mat4::spec_identity(),
    ensures
        spec_vertex_shader(v, u) == Option::Some(
            Vertex {
                position: v.position,
                normal: v.normal,
                tex_coords: v.tex_coords,
                color: v.color,
                transformed_position: v.position,
                transformed_normal: v.normal,
            },
        ),
{
    reveal(spec_vertex_shader);
    let pos4 = Vec4 { x: v.position.x, y: v.position.y, z: v.position.z, w: FX_ONE };
    crate::linalg::lemma_fx_mul_one(FX_ONE);
    crate::linalg::lemma_fx_mul_zero(FX_ONE);
    assert(u.projection_matrix.spec_matmul(u.view_matrix) == Mat4::spec_identity());
    assert(u.projection_matrix.spec_matmul(u.view_matrix).spec_matmul(u.model_matrix)
        == Mat4::spec_identity());
    crate::linalg::lemma_apply_identity(pos4);
    let clip = spec_clip_position(v, u);
    assert(clip == pos4);
    crate::fixed::lemma_fx_div_one(v.position.x);
    crate::fixed::lemma_fx_div_one(v.position.y);
    crate::fixed::lemma_fx_div_one(v.position.z);
    let ndc = Vec4 { x: v.position.x, y: v.position.y, z: v.position.z, w: FX_ONE };
    crate::linalg::lemma_apply_identity(ndc);
    assert(u.model_matrix.spec_linear_part().spec_transpose() == Mat3::spec_identity());
    crate::fixed::lemma_fx_div_one(FX_ONE);
    crate::fixed::lemma_fx_div_one(0);
    assert(spec_normal_matrix(u) == Mat3::spec_identity());
    crate::linalg::lemma_apply3_identity(v.normal);
}

/// The model matrix: rotations about the three axes composed as
/// `rz * ry * rx`, then uniform scale and translation applied on top.
pub open spec fn spec_create_model_matrix(translation: Vec3, scale: i64, rotation: Vec3) -> Mat4 {
    let sin_x = fx_sin(rotation.x);
    let cos_x = fx_cos(rotation.x);
    let sin_y = fx_sin(rotation.y);
    let cos_y = fx_cos(rotation.y);
    let sin_z = fx_sin(rotation.z);
    let cos_z = fx_cos(rotation.z);
    let rx = Mat4 {
        m00: FX_ONE,
        m01: 0,
        m02: 0,
        m03: 0,
        m10: 0,
        m11: cos_x,
        m12: (-sin_x) as i64,
        m13: 0,
        m20: 0,
        m21: sin_x,
        m22: cos_x,
        m23: 0,
        m30: 0,
        m31: 0,
        m32: 0,
        m33: FX_ONE,
    };
    let ry = Mat4 {
        m00: cos_y,
        m01: 0,
        m02: sin_y,
        m03: 0,
        m10: 0,
        m11: FX_ONE,
        m12: 0,
        m13: 0,
        m20: (-sin_y) as i64,
        m21: 0,
        m22: cos_y,
        m23: 0,
        m30: 0,
        m31: 0,
        m32: 0,
        m33: FX_ONE,
    };
    let rz = Mat4 {
        m00: cos_z,
        m01: (-sin_z) as i64,
        m02: 0,
        m03: 0,
        m10: sin_z,
        m11: cos_z,
        m12: 0,
        m13: 0,
        m20: 0,
        m21: 0,
        m22: FX_ONE,
        m23: 0,
        m30: 0,
        m31: 0,
        m32: 0,
        m33: FX_ONE,
    };
    let rot = rz.spec_matmul(ry).spec_matmul(rx);
    let tr = Mat4 {
        m00: scale,
        m01: 0,
        m02: 0,
        m03: translation.x,
        m10: 0,
        m11: scale,
        m12: 0,
        m13: translation.y,
        m20: 0,
        m21: 0,
        m22: scale,
        m23: translation.z,
        m30: 0,
        m31: 0,
        m32: 0,
        m33: FX_ONE,
    };
    tr.spec_matmul(rot)
}

pub fn create_model_matrix(translation: Vec3, scale: i64, rotation: Vec3) -> (m: Mat4)
    ensures
        m == spec_create_model_matrix(translation, scale, rotation),
{
    let sin_x = fx_sin(rotation.x);
    let cos_x = fx_cos(rotation.x);
    let sin_y = fx_sin(rotation.y);
    let cos_y = fx_cos(rotation.y);
    let sin_z = fx_sin(rotation.z);
    let cos_z = fx_cos(rotation.z);
    let rx = Mat4::new(
        FX_ONE,
        0,
        0,
        0,
        0,
        cos_x,
        -sin_x,
        0,
        0,
        sin_x,
        cos_x,
        0,
        0,
        0,
        0,
        FX_ONE,
    );
    let ry = Mat4::new(
        cos_y,
        0,
        sin_y,
        0,
        0,
        FX_ONE,
        0,
        0,
        -sin_y,
        0,
        cos_y,
        0,
        0,
        0,
        0,
        FX_ONE,
    );
    let rz = Mat4::new(
        cos_z,
        -sin_z,
        0,
        0,
        sin_z,
        cos_z,
        0,
        0,
        0,
        0,
        FX_ONE,
        0,
        0,
        0,
        0,
        FX_ONE,
    );
    let rot = rz.matmul(&ry).matmul(&rx);
    let tr = Mat4::new(
        scale,
        0,
        0,
        translation.x,
        0,
        scale,
        0,
        translation.y,
        0,
        0,
        scale,
        translation.z,
        0,
        0,
        0,
        FX_ONE,
    );
    tr.matmul(&rot)
}

/// The standard look-at view matrix from an eye, a center and an up hint;
/// the identity when the implied axes degenerate (eye at center, or the
/// forward direction parallel to up).
pub open spec fn spec_create_view_matrix(eye: Vec3, center: Vec3, up: Vec3) -> Mat4 {
    let d = center.spec_minus(eye);
    match d.spec_normalized() {
        Option::None => Mat4::spec_identity(),
        Option::Some(f) => {
            match f.spec_cross(up).spec_normalized() {
                Option::None => Mat4::spec_identity(),
                Option::Some(s) => {
                    let t = s.spec_cross(f);
                    Mat4 {
                        m00: s.x,
                        m01: s.y,
                        m02: s.z,
                        m03: fx_sub(0, s.spec_dot(eye)),
                        m10: t.x,
                        m11: t.y,
                        m12: t.z,
                        m13: fx_sub(0, t.spec_dot(eye)),
                        m20: fx_sub(0, f.x),
                        m21: fx_sub(0, f.y),
                        m22: fx_sub(0, f.z),
                        m23: f.spec_dot(eye),
                        m30: 0,
                        m31: 0,
                        m32: 0,
                        m33: FX_ONE,
                    }
                },
            }
        },
    }
}

pub fn create_view_matrix(eye: Vec3, center: Vec3, up: Vec3) -> (m: Mat4)
    requires
        -VIEW_LIMIT <= eye.x <= VIEW_LIMIT,
        -VIEW_LIMIT <= eye.y <= VIEW_LIMIT,
        -VIEW_LIMIT <= eye.z <= VIEW_LIMIT,
        -VIEW_LIMIT <= center.x <= VIEW_LIMIT,
        -VIEW_LIMIT <= center.y <= VIEW_LIMIT,
        -VIEW_LIMIT <= center.z <= VIEW_LIMIT,
        -VIEW_LIMIT <= up.x <= VIEW_LIMIT,
        -VIEW_LIMIT <= up.y <= VIEW_LIMIT,
        -VIEW_LIMIT <= up.z <= VIEW_LIMIT,
    ensures
        m == spec_create_view_matrix(eye, center, up),
{
    let d = center.minus(&eye);
    match d.normalized() {
        Option::None => Mat4::identity(),
        Option::Some(f) => {
            proof {
                crate::linalg::lemma_normalized_bounds(d);
                lemma_cross_in_range(f, up);
            }
            let sr = f.cross(&up);
            match sr.normalized() {
                Option::None => Mat4::identity(),
                Option::Some(s) => {
                    proof {
                        crate::linalg::lemma_normalized_bounds(sr);
                    }
                    let t = s.cross(&f);
                    Mat4::new(
                        s.x,
                        s.y,
                        s.z,
                        fx_sub(0, s.dot(&eye)),
                        t.x,
                        t.y,
                        t.z,
                        fx_sub(0, t.dot(&eye)),
                        fx_sub(0, f.x),
                        fx_sub(0, f.y),
                        fx_sub(0, f.z),
                        f.dot(&eye),
                        0,
                        0,
                        0,
                        FX_ONE,
                    )
                },
            }
        },
    }
}

/// The cross product of a unit-bounded vector with a view-bounded vector
/// stays within the magnitude range.
proof fn lemma_cross_in_range(f: Vec3, up: Vec3)
    requires
        -FX_ONE <= f.x <= FX_ONE,
        -FX_ONE <= f.y <= FX_ONE,
        -FX_ONE <= f.z <= FX_ONE,
        -VIEW_LIMIT <= up.x <= VIEW_LIMIT,
        -VIEW_LIMIT <= up.y <= VIEW_LIMIT,
        -VIEW_LIMIT <= up.z <= VIEW_LIMIT,
    ensures
        f.spec_cross(up).spec_in_range(),
{
    lemma_cross_product_bound(f.y, up.z, f.z, up.y);
    lemma_cross_product_bound(f.z, up.x, f.x, up.z);
    lemma_cross_product_bound(f.x, up.y, f.y, up.x);
}

/// One component of such a cross product is within twice the view bound.
proof fn lemma_cross_product_bound(a: i64, b: i64, c: i64, d: i64)
    requires
        -FX_ONE <= a <= FX_ONE,
        -FX_ONE <= c <= FX_ONE,
        -VIEW_LIMIT <= b <= VIEW_LIMIT,
        -VIEW_LIMIT <= d <= VIEW_LIMIT,
    ensures
        -VEC_LIMIT <= fx_sub(fx_mul(a, b), fx_mul(c, d)) <= VEC_LIMIT,
{
    crate::fixed::lemma_mul_abs_bound(a as int, b as int, FX_ONE as int, VIEW_LIMIT as int);
    crate::fixed::lemma_mul_abs_bound(c as int, d as int, FX_ONE as int, VIEW_LIMIT as int);
    crate::fixed::lemma_fx_mul_magnitude(a, b, VIEW_LIMIT as int);
    crate::fixed::lemma_fx_mul_magnitude(c, d, VIEW_LIMIT as int);
}

/// The perspective projection for the fixed 70-degree field of view and
/// the near and far planes, from the window's aspect ratio; the identity
/// when a degenerate aspect or field of view leaves a division undefined.
pub open spec fn spec_create_perspective_matrix(width: i64, height: i64) -> Mat4
    recommends
        height != 0,
{
    let cos_half = fx_cos(HALF_FOV);
    if cos_half == 0 {
        Mat4::spec_identity()
    } else {
        let tan_half = fx_div(fx_sin(HALF_FOV), cos_half);
        let aspect = if height != 0 {
            fx_div(width, height)
        } else {
            0
        };
        if tan_half == 0 || aspect == 0 {
            Mat4::spec_identity()
        } else {
            let focal = fx_div(FX_ONE, tan_half);
            Mat4 {
                m00: fx_div(focal, aspect),
                m01: 0,
                m02: 0,
                m03: 0,
                m10: 0,
                m11: focal,
                m12: 0,
                m13: 0,
                m20: 0,
                m21: 0,
                m22: fx_div(
                    crate::fixed::spec_fx_add(PERSPECTIVE_FAR, PERSPECTIVE_NEAR),
                    crate::fixed::spec_fx_sub(PERSPECTIVE_NEAR, PERSPECTIVE_FAR),
                ),
                m23: fx_div(
                    fx_mul(FX_TWO, fx_mul(PERSPECTIVE_FAR, PERSPECTIVE_NEAR)),
                    crate::fixed::spec_fx_sub(PERSPECTIVE_NEAR, PERSPECTIVE_FAR),
                ),
                m30: 0,
                m31: 0,
                m32: (-FX_ONE) as i64,
                m33: 0,
            }
        }
    }
}

pub fn create_perspective_matrix(width: i64, height: i64) -> (m: Mat4)
    requires
        height != 0,
    ensures
        m == spec_create_perspective_matrix(width, height),
{
    let cos_half = fx_cos(HALF_FOV);
    if cos_half == 0 {
        Mat4::identity()
    } else {
        let tan_half = fx_div(fx_sin(HALF_FOV), cos_half);
        let aspect = fx_div(width, height);
        if tan_half == 0 || aspect == 0 {
            Mat4::identity()
        } else {
            let focal = fx_div(FX_ONE, tan_half);
            Mat4::new(
                fx_div(focal, aspect),
                0,
                0,
                0,
                0,
                focal,
                0,
                0,
                0,
                0,
                fx_div(
                    crate::fixed::fx_add(PERSPECTIVE_FAR, PERSPECTIVE_NEAR),
                    fx_sub(PERSPECTIVE_NEAR, PERSPECTIVE_FAR),
                ),
                fx_div(
                    fx_mul(FX_TWO, fx_mul(PERSPECTIVE_FAR, PERSPECTIVE_NEAR)),
                    fx_sub(PERSPECTIVE_NEAR, PERSPECTIVE_FAR),
                ),
                0,
                0,
                -FX_ONE,
                0,
            )
        }
    }
}

/// The viewport transform: x and y scaled to the pixel extent with the
/// y axis flipped, z passed through unchanged as depth.
pub open spec fn spec_create_viewport_matrix(width: i64, height: i64) -> Mat4 {
    let half_w = fx_mul(width, crate::fixed::FX_HALF);
    let half_h = fx_mul(height, crate::fixed::FX_HALF);
    Mat4 {
        m00: half_w,
        m01: 0,
        m02: 0,
        m03: half_w,
        m10: 0,
        m11: fx_sub(0, half_h),
        m12: 0,
        m13: half_h,
        m20: 0,
        m21: 0,
        m22: FX_ONE,
        m23: 0,
        m30: 0,
        m31: 0,
        m32: 0,
        m33: FX_ONE,
    }
}

pub fn create_viewport_matrix(width: i64, height: i64) -> (m: Mat4)
    ensures
        m == spec_create_viewport_matrix(width, height),
{
    let half_w = fx_mul(width, crate::fixed::FX_HALF);
    let half_h = fx_mul(height, crate::fixed::FX_HALF);
    Mat4::new(
        half_w,
        0,
        0,
        half_w,
        0,
        fx_sub(0, half_h),
        0,
        half_h,
        0,
        0,
        FX_ONE,
        0,
        0,
        0,
        0,
        FX_ONE,
    )
}

/// A moon's orbital position: the orbit angle grows linearly with the
/// frame counter, and the position circles in the xz plane.
pub open spec fn spec_calculate_moon_position(time: u32, distance: i64, speed: i64) -> Vec3 {
    let angle = fx_mul(crate::fixed::spec_fx_from_int(time as i64), speed);
    Vec3 { x: fx_mul(distance, fx_cos(angle)), y: 0, z: fx_mul(distance, fx_sin(angle)) }
}

pub fn calculate_moon_position(time: u32, distance: i64, speed: i64) -> (v: Vec3)
    ensures
        v == spec_calculate_moon_position(time, distance, speed),
{
    let angle = fx_mul(fx_from_int(time as i64), speed);
    Vec3 { x: fx_mul(distance, fx_cos(angle)), y: 0, z: fx_mul(distance, fx_sin(angle)) }
}

/// With no rotation, the model matrix is exactly the scale on the diagonal
/// and the translation in the last column: the sine of zero is exactly zero
/// and the cosine exactly one, so the rotation factors drop out.
pub proof fn lemma_model_matrix_zero_rotation(translation: Vec3, scale: i64)
    ensures
        spec_create_model_matrix(translation, scale, Vec3 { x: 0, y: 0, z: 0 }) == (Mat4 {
            m00: scale,
            m01: 0,
            m02: 0,
            m03: translation.x,
            m10: 0,
            m11: scale,
            m12: 0,
            m13: translation.y,
            m20: 0,
            m21: 0,
            m22: scale,
            m23: translation.z,
            m30: 0,
            m31: 0,
            m32: 0,
            m33: FX_ONE,
        }),
{
    crate::fixed::lemma_trig_cardinal();
    crate::linalg::lemma_fx_mul_one(FX_ONE);
    crate::linalg::lemma_fx_mul_zero(FX_ONE);
    crate::linalg::lemma_fx_mul_zero(0);
    crate::linalg::lemma_fx_mul_one(scale);
    crate::linalg::lemma_fx_mul_zero(scale);
    crate::linalg::lemma_fx_mul_one(translation.x);
    crate::linalg::lemma_fx_mul_zero(translation.x);
    crate::linalg::lemma_fx_mul_one(translation.y);
    crate::linalg::lemma_fx_mul_zero(translation.y);
    crate::linalg::lemma_fx_mul_one(translation.z);
    crate::linalg::lemma_fx_mul_zero(translation.z);
}

/// At frame zero the moon sits exactly at `(distance, 0, 0)`: the orbit
/// angle is zero, whose cosine is exactly one and sine exactly zero.
pub proof fn lemma_moon_position_at_start(distance: i64, speed: i64)
    ensures
        spec_calculate_moon_position(0, distance, speed) == (Vec3 { x: distance, y: 0, z: 0 }),
{
    crate::fixed::lemma_trig_cardinal();
    crate::linalg::lemma_fx_mul_zero(speed);
    crate::linalg::lemma_fx_mul_one(distance);
    crate::linalg::lemma_fx_mul_zero(distance);
}

} // verus!
