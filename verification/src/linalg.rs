//! Fixed-point vectors and matrices: the 2-, 3- and 4-component vectors and
//! the 3x3 and 4x4 row-major matrices the transform chain works with.

use crate::fixed::{
    fx_add, fx_div, fx_mul, fx_sub, isqrt, lemma_mul_abs_bound, lemma_sqrt_floor_props,
    spec_fx_mul, sqrt_floor, FX_ONE,
};
use vstd::prelude::*;

verus! {

/// Coordinates handed to a magnitude computation stay below this bound, so
/// that the sum of three squares fits the wide intermediate type.
pub const VEC_LIMIT: i64 = 0x1000_0000_0000_0000;

#[derive(Clone, Copy, PartialEq, Eq, Structural, Debug)]
pub struct Vec2 {
    pub x: i64,
    pub y: i64,
}

#[derive(Clone, Copy, PartialEq, Eq, Structural, Debug)]
pub struct Vec3 {
    pub x: i64,
    pub y: i64,
    pub z: i64,
}

#[derive(Clone, Copy, PartialEq, Eq, Structural, Debug)]
pub struct Vec4 {
    pub x: i64,
    pub y: i64,
    pub z: i64,
    pub w: i64,
}

/// A row-major 4x4 matrix; `mRC` is the entry at row `R`, column `C`.
#[derive(Clone, Copy, PartialEq, Eq, Structural, Debug)]
pub struct Mat4 {
    pub m00: i64,
    pub m01: i64,
    pub m02: i64,
    pub m03: i64,
    pub m10: i64,
    pub m11: i64,
    pub m12: i64,
    pub m13: i64,
    pub m20: i64,
    pub m21: i64,
    pub m22: i64,
    pub m23: i64,
    pub m30: i64,
    pub m31: i64,
    pub m32: i64,
    pub m33: i64,
}

/// A row-major 3x3 matrix.
#[derive(Clone, Copy, PartialEq, Eq, Structural, Debug)]
pub struct Mat3 {
    pub a00: i64,
    pub a01: i64,
    pub a02: i64,
    pub a10: i64,
    pub a11: i64,
    pub a12: i64,
    pub a20: i64,
    pub a21: i64,
    pub a22: i64,
}

/// One row-times-column entry of a matrix product or transform.
pub open spec fn spec_mm4(
    a0: i64,
    a1: i64,
    a2: i64,
    a3: i64,
    b0: i64,
    b1: i64,
    b2: i64,
    b3: i64,
) -> i64 {
    fx_add(fx_add(fx_add(fx_mul(a0, b0), fx_mul(a1, b1)), fx_mul(a2, b2)), fx_mul(a3, b3))
}

#[verifier::when_used_as_spec(spec_mm4)]
fn mm4(a0: i64, a1: i64, a2: i64, a3: i64, b0: i64, b1: i64, b2: i64, b3: i64) -> (r: i64)
    ensures
        r == spec_mm4(a0, a1, a2, a3, b0, b1, b2, b3),
{
    fx_add(fx_add(fx_add(fx_mul(a0, b0), fx_mul(a1, b1)), fx_mul(a2, b2)), fx_mul(a3, b3))
}

/// One row-times-column entry over three components.
pub open spec fn spec_mm3(a0: i64, a1: i64, a2: i64, b0: i64, b1: i64, b2: i64) -> i64 {
    fx_add(fx_add(fx_mul(a0, b0), fx_mul(a1, b1)), fx_mul(a2, b2))
}

#[verifier::when_used_as_spec(spec_mm3)]
fn mm3(a0: i64, a1: i64, a2: i64, b0: i64, b1: i64, b2: i64) -> (r: i64)
    ensures
        r == spec_mm3(a0, a1, a2, b0, b1, b2),
{
    fx_add(fx_add(fx_mul(a0, b0), fx_mul(a1, b1)), fx_mul(a2, b2))
}

impl Vec2 {
    pub fn new(x: i64, y: i64) -> (v: Vec2)
        ensures
            v == (Vec2 { x, y }),
    {
        Vec2 { x, y }
    }

    /// The length of this vector: the integer square root of the sum of
    /// the squared components.
    pub open spec fn spec_magnitude(self) -> i64 {
        sqrt_floor((self.x * self.x + self.y * self.y) as nat) as i64
    }

    pub fn magnitude(&self) -> (r: i64)
        requires
            -VEC_LIMIT <= self.x <= VEC_LIMIT,
            -VEC_LIMIT <= self.y <= VEC_LIMIT,
        ensures
            r == self.spec_magnitude(),
            0 <= r,
    {
        let sq = magnitude_squared_2(self.x, self.y);
        let root = isqrt(sq);
        proof {
            lemma_root_fits((sq as nat), root as nat);
        }
        root as i64
    }
}

impl Vec3 {
    pub fn new(x: i64, y: i64, z: i64) -> (v: Vec3)
        ensures
            v == (Vec3 { x, y, z }),
    {
        Vec3 { x, y, z }
    }

    pub open spec fn spec_plus(self, o: Vec3) -> Vec3 {
        Vec3 { x: fx_add(self.x, o.x), y: fx_add(self.y, o.y), z: fx_add(self.z, o.z) }
    }

    pub fn plus(&self, o: &Vec3) -> (v: Vec3)
        ensures
            v == self.spec_plus(*o),
    {
        Vec3 { x: fx_add(self.x, o.x), y: fx_add(self.y, o.y), z: fx_add(self.z, o.z) }
    }

    pub open spec fn spec_minus(self, o: Vec3) -> Vec3 {
        Vec3 { x: fx_sub(self.x, o.x), y: fx_sub(self.y, o.y), z: fx_sub(self.z, o.z) }
    }

    pub fn minus(&self, o: &Vec3) -> (v: Vec3)
        ensures
            v == self.spec_minus(*o),
    {
        Vec3 { x: fx_sub(self.x, o.x), y: fx_sub(self.y, o.y), z: fx_sub(self.z, o.z) }
    }

    pub open spec fn spec_scaled(self, s: i64) -> Vec3 {
        Vec3 { x: fx_mul(self.x, s), y: fx_mul(self.y, s), z: fx_mul(self.z, s) }
    }

    pub fn scaled(&self, s: i64) -> (v: Vec3)
        ensures
            v == self.spec_scaled(s),
    {
        Vec3 { x: fx_mul(self.x, s), y: fx_mul(self.y, s), z: fx_mul(self.z, s) }
    }

    /// The fixed-point dot product.
    pub open spec fn spec_dot(self, o: Vec3) -> i64 {
        spec_mm3(self.x, self.y, self.z, o.x, o.y, o.z)
    }

    pub fn dot(&self, o: &Vec3) -> (r: i64)
        ensures
            r == self.spec_dot(*o),
    {
        mm3(self.x, self.y, self.z, o.x, o.y, o.z)
    }

    /// The fixed-point cross product.
    pub open spec fn spec_cross(self, o: Vec3) -> Vec3 {
        Vec3 {
            x: fx_sub(fx_mul(self.y, o.z), fx_mul(self.z, o.y)),
            y: fx_sub(fx_mul(self.z, o.x), fx_mul(self.x, o.z)),
            z: fx_sub(fx_mul(self.x, o.y), fx_mul(self.y, o.x)),
        }
    }

    pub fn cross(&self, o: &Vec3) -> (v: Vec3)
        ensures
            v == self.spec_cross(*o),
    {
        Vec3 {
            x: fx_sub(fx_mul(self.y, o.z), fx_mul(self.z, o.y)),
            y: fx_sub(fx_mul(self.z, o.x), fx_mul(self.x, o.z)),
            z: fx_sub(fx_mul(self.x, o.y), fx_mul(self.y, o.x)),
        }
    }

    /// Whether every component is within the magnitude bound.
    pub open spec fn spec_in_range(self) -> bool {
        -VEC_LIMIT <= self.x <= VEC_LIMIT && -VEC_LIMIT <= self.y <= VEC_LIMIT && -VEC_LIMIT
            <= self.z <= VEC_LIMIT
    }

    pub fn in_range(&self) -> (r: bool)
        ensures
            r == self.spec_in_range(),
    {
        -VEC_LIMIT <= self.x && self.x <= VEC_LIMIT && -VEC_LIMIT <= self.y && self.y <= VEC_LIMIT
            && -VEC_LIMIT <= self.z && self.z <= VEC_LIMIT
    }

    /// The length of this vector.
    pub open spec fn spec_magnitude(self) -> i64 {
        sqrt_floor((self.x * self.x + self.y * self.y + self.z * self.z) as nat) as i64
    }

    pub fn magnitude(&self) -> (r: i64)
        requires
            self.spec_in_range(),
        ensures
            r == self.spec_magnitude(),
            0 <= r,
    {
        let sq = magnitude_squared_3(self.x, self.y, self.z);
        let root = isqrt(sq);
        proof {
            lemma_root_fits((sq as nat), root as nat);
        }
        root as i64
    }

    /// The unit vector pointing the same way, or nothing for the zero
    /// vector (whose direction is undefined).
    pub open spec fn spec_normalized(self) -> Option<Vec3> {
        let m = self.spec_magnitude();
        if m == 0 {
            None
        } else {
            Some(Vec3 { x: fx_div(self.x, m), y: fx_div(self.y, m), z: fx_div(self.z, m) })
        }
    }

    pub fn normalized(&self) -> (v: Option<Vec3>)
        requires
            self.spec_in_range(),
        ensures
            v == self.spec_normalized(),
            v is None <==> self.spec_magnitude() == 0,
    {
        let m = self.magnitude();
        if m == 0 {
            None
        } else {
            Some(Vec3 { x: fx_div(self.x, m), y: fx_div(self.y, m), z: fx_div(self.z, m) })
        }
    }
}

impl Vec4 {
    pub fn new(x: i64, y: i64, z: i64, w: i64) -> (v: Vec4)
        ensures
            v == (Vec4 { x, y, z, w }),
    {
        Vec4 { x, y, z, w }
    }
}

/// The sum of two squares, exact in the wide type.
fn magnitude_squared_2(x: i64, y: i64) -> (r: u128)
    requires
        -VEC_LIMIT <= x <= VEC_LIMIT,
        -VEC_LIMIT <= y <= VEC_LIMIT,
    ensures
        r == x * x + y * y,
        r < 0x4000_0000_0000_0000_0000_0000_0000_0000,
{
    proof {
        lemma_mul_abs_bound(x as int, x as int, VEC_LIMIT as int, VEC_LIMIT as int);
        lemma_mul_abs_bound(y as int, y as int, VEC_LIMIT as int, VEC_LIMIT as int);
        lemma_squares_nonneg(x as int, y as int, 0);
    }
    let sx: i128 = (x as i128) * (x as i128);
    let sy: i128 = (y as i128) * (y as i128);
    (sx + sy) as u128
}

/// The sum of three squares, exact in the wide type.
fn magnitude_squared_3(x: i64, y: i64, z: i64) -> (r: u128)
    requires
        -VEC_LIMIT <= x <= VEC_LIMIT,
        -VEC_LIMIT <= y <= VEC_LIMIT,
        -VEC_LIMIT <= z <= VEC_LIMIT,
    ensures
        r == x * x + y * y + z * z,
        r < 0x4000_0000_0000_0000_0000_0000_0000_0000,
{
    proof {
        lemma_mul_abs_bound(x as int, x as int, VEC_LIMIT as int, VEC_LIMIT as int);
        lemma_mul_abs_bound(y as int, y as int, VEC_LIMIT as int, VEC_LIMIT as int);
        lemma_mul_abs_bound(z as int, z as int, VEC_LIMIT as int, VEC_LIMIT as int);
        lemma_squares_nonneg(x as int, y as int, z as int);
    }
    let sx: i128 = (x as i128) * (x as i128);
    let sy: i128 = (y as i128) * (y as i128);
    let sz: i128 = (z as i128) * (z as i128);
    (sx + sy + sz) as u128
}

/// Squares are non-negative.
proof fn lemma_squares_nonneg(x: int, y: int, z: int)
    by (nonlinear_arith)
    ensures
        x * x >= 0,
        y * y >= 0,
        z * z >= 0,
{
}

/// The square root of a value below `2^126` fits comfortably in `i64`.
proof fn lemma_root_fits(n: nat, r: nat)
    requires
        r == sqrt_floor(n),
        n < 0x4000_0000_0000_0000_0000_0000_0000_0000,
    ensures
        r < 0x8000_0000_0000_0000,
{
    lemma_sqrt_floor_props(n);
    assert(r < 0x8000_0000_0000_0000) by (nonlinear_arith)
        requires
            r * r <= n,
            n < 0x4000_0000_0000_0000_0000_0000_0000_0000,
    ;
}

impl Mat4 {
    /// A matrix from its sixteen entries in row-major order.
    pub fn new(
        m00: i64,
        m01: i64,
        m02: i64,
        m03: i64,
        m10: i64,
        m11: i64,
        m12: i64,
        m13: i64,
        m20: i64,
        m21: i64,
        m22: i64,
        m23: i64,
        m30: i64,
        m31: i64,
        m32: i64,
        m33: i64,
    ) -> (m: Mat4)
        ensures
            m == (Mat4 {
                m00,
                m01,
                m02,
                m03,
                m10,
                m11,
                m12,
                m13,
                m20,
                m21,
                m22,
                m23,
                m30,
                m31,
                m32,
                m33,
            }),
    {
        Mat4 { m00, m01, m02, m03, m10, m11, m12, m13, m20, m21, m22, m23, m30, m31, m32, m33 }
    }

    /// The identity transform.
    pub open spec fn spec_identity() -> Mat4 {
        Mat4 {
            m00: FX_ONE,
            m01: 0,
            m02: 0,
            m03: 0,
            m10: 0,
            m11: FX_ONE,
            m12: 0,
            m13: 0,
            m20: 0,
            m21: 0,
            m22: FX_ONE,
            m23: 0,
            m30: 0,
            m31: 0,
            m32: 0,
            m33: FX_ONE,
        }
    }

    pub fn identity() -> (m: Mat4)
        ensures
            m == Mat4::spec_identity(),
    {
        Mat4 {
            m00: FX_ONE,
            m01: 0,
            m02: 0,
            m03: 0,
            m10: 0,
            m11: FX_ONE,
            m12: 0,
            m13: 0,
            m20: 0,
            m21: 0,
            m22: FX_ONE,
            m23: 0,
            m30: 0,
            m31: 0,
            m32: 0,
            m33: FX_ONE,
        }
    }

    /// The matrix product `self * o`.
    pub open spec fn spec_matmul(self, o: Mat4) -> Mat4 {
        Mat4 {
            m00: spec_mm4(self.m00, self.m01, self.m02, self.m03, o.m00, o.m10, o.m20, o.m30),
            m01: spec_mm4(self.m00, self.m01, self.m02, self.m03, o.m01, o.m11, o.m21, o.m31),
            m02: spec_mm4(self.m00, self.m01, self.m02, self.m03, o.m02, o.m12, o.m22, o.m32),
            m03: spec_mm4(self.m00, self.m01, self.m02, self.m03, o.m03, o.m13, o.m23, o.m33),
            m10: spec_mm4(self.m10, self.m11, self.m12, self.m13, o.m00, o.m10, o.m20, o.m30),
            m11: spec_mm4(self.m10, self.m11, self.m12, self.m13, o.m01, o.m11, o.m21, o.m31),
            m12: spec_mm4(self.m10, self.m11, self.m12, self.m13, o.m02, o.m12, o.m22, o.m32),
            m13: spec_mm4(self.m10, self.m11, self.m12, self.m13, o.m03, o.m13, o.m23, o.m33),
            m20: spec_mm4(self.m20, self.m21, self.m22, self.m23, o.m00, o.m10, o.m20, o.m30),
            m21: spec_mm4(self.m20, self.m21, self.m22, self.m23, o.m01, o.m11, o.m21, o.m31),
            m22: spec_mm4(self.m20, self.m21, self.m22, self.m23, o.m02, o.m12, o.m22, o.m32),
            m23: spec_mm4(self.m20, self.m21, self.m22, self.m23, o.m03, o.m13, o.m23, o.m33),
            m30: spec_mm4(self.m30, self.m31, self.m32, self.m33, o.m00, o.m10, o.m20, o.m30),
            m31: spec_mm4(self.m30, self.m31, self.m32, self.m33, o.m01, o.m11, o.m21, o.m31),
            m32: spec_mm4(self.m30, self.m31, self.m32, self.m33, o.m02, o.m12, o.m22, o.m32),
            m33: spec_mm4(self.m30, self.m31, self.m32, self.m33, o.m03, o.m13, o.m23, o.m33),
        }
    }

    pub fn matmul(&self, o: &Mat4) -> (m: Mat4)
        ensures
            m == self.spec_matmul(*o),
    {
        Mat4 {
            m00: mm4(self.m00, self.m01, self.m02, self.m03, o.m00, o.m10, o.m20, o.m30),
            m01: mm4(self.m00, self.m01, self.m02, self.m03, o.m01, o.m11, o.m21, o.m31),
            m02: mm4(self.m00, self.m01, self.m02, self.m03, o.m02, o.m12, o.m22, o.m32),
            m03: mm4(self.m00, self.m01, self.m02, self.m03, o.m03, o.m13, o.m23, o.m33),
            m10: mm4(self.m10, self.m11, self.m12, self.m13, o.m00, o.m10, o.m20, o.m30),
            m11: mm4(self.m10, self.m11, self.m12, self.m13, o.m01, o.m11, o.m21, o.m31),
            m12: mm4(self.m10, self.m11, self.m12, self.m13, o.m02, o.m12, o.m22, o.m32),
            m13: mm4(self.m10, self.m11, self.m12, self.m13, o.m03, o.m13, o.m23, o.m33),
            m20: mm4(self.m20, self.m21, self.m22, self.m23, o.m00, o.m10, o.m20, o.m30),
            m21: mm4(self.m20, self.m21, self.m22, self.m23, o.m01, o.m11, o.m21, o.m31),
            m22: mm4(self.m20, self.m21, self.m22, self.m23, o.m02, o.m12, o.m22, o.m32),
            m23: mm4(self.m20, self.m21, self.m22, self.m23, o.m03, o.m13, o.m23, o.m33),
            m30: mm4(self.m30, self.m31, self.m32, self.m33, o.m00, o.m10, o.m20, o.m30),
            m31: mm4(self.m30, self.m31, self.m32, self.m33, o.m01, o.m11, o.m21, o.m31),
            m32: mm4(self.m30, self.m31, self.m32, self.m33, o.m02, o.m12, o.m22, o.m32),
            m33: mm4(self.m30, self.m31, self.m32, self.m33, o.m03, o.m13, o.m23, o.m33),
        }
    }

    /// The image of a homogeneous point under this transform.
    pub open spec fn spec_apply(self, v: Vec4) -> Vec4 {
        Vec4 {
            x: spec_mm4(self.m00, self.m01, self.m02, self.m03, v.x, v.y, v.z, v.w),
            y: spec_mm4(self.m10, self.m11, self.m12, self.m13, v.x, v.y, v.z, v.w),
            z: spec_mm4(self.m20, self.m21, self.m22, self.m23, v.x, v.y, v.z, v.w),
            w: spec_mm4(self.m30, self.m31, self.m32, self.m33, v.x, v.y, v.z, v.w),
        }
    }

    pub fn apply(&self, v: &Vec4) -> (r: Vec4)
        ensures
            r == self.spec_apply(*v),
    {
        Vec4 {
            x: mm4(self.m00, self.m01, self.m02, self.m03, v.x, v.y, v.z, v.w),
            y: mm4(self.m10, self.m11, self.m12, self.m13, v.x, v.y, v.z, v.w),
            z: mm4(self.m20, self.m21, self.m22, self.m23, v.x, v.y, v.z, v.w),
            w: mm4(self.m30, self.m31, self.m32, self.m33, v.x, v.y, v.z, v.w),
        }
    }

    /// The upper-left 3x3 block: the linear part of the transform.
    pub open spec fn spec_linear_part(self) -> Mat3 {
        Mat3 {
            a00: self.m00,
            a01: self.m01,
            a02: self.m02,
            a10: self.m10,
            a11: self.m11,
            a12: self.m12,
            a20: self.m20,
            a21: self.m21,
            a22: self.m22,
        }
    }

    pub fn linear_part(&self) -> (m: Mat3)
        ensures
            m == self.spec_linear_part(),
    {
        Mat3 {
            a00: self.m00,
            a01: self.m01,
            a02: self.m02,
            a10: self.m10,
            a11: self.m11,
            a12: self.m12,
            a20: self.m20,
            a21: self.m21,
            a22: self.m22,
        }
    }
}

impl Mat3 {
    pub open spec fn spec_identity() -> Mat3 {
        Mat3 {
            a00: FX_ONE,
            a01: 0,
            a02: 0,
            a10: 0,
            a11: FX_ONE,
            a12: 0,
            a20: 0,
            a21: 0,
            a22: FX_ONE,
        }
    }

    pub fn identity() -> (m: Mat3)
        ensures
            m == Mat3::spec_identity(),
    {
        Mat3 {
            a00: FX_ONE,
            a01: 0,
            a02: 0,
            a10: 0,
            a11: FX_ONE,
            a12: 0,
            a20: 0,
            a21: 0,
            a22: FX_ONE,
        }
    }

    /// The matrix flipped over its diagonal.
    pub open spec fn spec_transpose(self) -> Mat3 {
        Mat3 {
            a00: self.a00,
            a01: self.a10,
            a02: self.a20,
            a10: self.a01,
            a11: self.a11,
            a12: self.a21,
            a20: self.a02,
            a21: self.a12,
            a22: self.a22,
        }
    }

    pub fn transpose(&self) -> (m: Mat3)
        ensures
            m == self.spec_transpose(),
    {
        Mat3 {
            a00: self.a00,
            a01: self.a10,
            a02: self.a20,
            a10: self.a01,
            a11: self.a11,
            a12: self.a21,
            a20: self.a02,
            a21: self.a12,
            a22: self.a22,
        }
    }

    /// The fixed-point determinant.
    pub open spec fn spec_det(self) -> i64 {
        fx_add(
            fx_sub(
                fx_mul(self.a00, fx_sub(fx_mul(self.a11, self.a22), fx_mul(self.a12, self.a21))),
                fx_mul(self.a01, fx_sub(fx_mul(self.a10, self.a22), fx_mul(self.a12, self.a20))),
            ),
            fx_mul(self.a02, fx_sub(fx_mul(self.a10, self.a21), fx_mul(self.a11, self.a20))),
        )
    }

    pub fn det(&self) -> (r: i64)
        ensures
            r == self.spec_det(),
    {
        fx_add(
            fx_sub(
                fx_mul(self.a00, fx_sub(fx_mul(self.a11, self.a22), fx_mul(self.a12, self.a21))),
                fx_mul(self.a01, fx_sub(fx_mul(self.a10, self.a22), fx_mul(self.a12, self.a20))),
            ),
            fx_mul(self.a02, fx_sub(fx_mul(self.a10, self.a21), fx_mul(self.a11, self.a20))),
        )
    }

    /// The inverse by the adjugate, or nothing when the fixed-point
    /// determinant vanishes.
    pub open spec fn spec_inverse(self) -> Option<Mat3> {
        let d = self.spec_det();
        if d == 0 {
            None
        } else {
            Some(
                Mat3 {
                    a00: fx_div(fx_sub(fx_mul(self.a11, self.a22), fx_mul(self.a12, self.a21)), d),
                    a01: fx_div(fx_sub(fx_mul(self.a02, self.a21), fx_mul(self.a01, self.a22)), d),
                    a02: fx_div(fx_sub(fx_mul(self.a01, self.a12), fx_mul(self.a02, self.a11)), d),
                    a10: fx_div(fx_sub(fx_mul(self.a12, self.a20), fx_mul(self.a10, self.a22)), d),
                    a11: fx_div(fx_sub(fx_mul(self.a00, self.a22), fx_mul(self.a02, self.a20)), d),
                    a12: fx_div(fx_sub(fx_mul(self.a02, self.a10), fx_mul(self.a00, self.a12)), d),
                    a20: fx_div(fx_sub(fx_mul(self.a10, self.a21), fx_mul(self.a11, self.a20)), d),
                    a21: fx_div(fx_sub(fx_mul(self.a01, self.a20), fx_mul(self.a00, self.a21)), d),
                    a22: fx_div(fx_sub(fx_mul(self.a00, self.a11), fx_mul(self.a01, self.a10)), d),
                },
            )
        }
    }

    pub fn inverse(&self) -> (m: Option<Mat3>)
        ensures
            m == self.spec_inverse(),
            m is None <==> self.spec_det() == 0,
    {
        let d = self.det();
        if d == 0 {
            None
        } else {
            Some(
                Mat3 {
                    a00: fx_div(fx_sub(fx_mul(self.a11, self.a22), fx_mul(self.a12, self.a21)), d),
                    a01: fx_div(fx_sub(fx_mul(self.a02, self.a21), fx_mul(self.a01, self.a22)), d),
                    a02: fx_div(fx_sub(fx_mul(self.a01, self.a12), fx_mul(self.a02, self.a11)), d),
                    a10: fx_div(fx_sub(fx_mul(self.a12, self.a20), fx_mul(self.a10, self.a22)), d),
                    a11: fx_div(fx_sub(fx_mul(self.a00, self.a22), fx_mul(self.a02, self.a20)), d),
                    a12: fx_div(fx_sub(fx_mul(self.a02, self.a10), fx_mul(self.a00, self.a12)), d),
                    a20: fx_div(fx_sub(fx_mul(self.a10, self.a21), fx_mul(self.a11, self.a20)), d),
                    a21: fx_div(fx_sub(fx_mul(self.a01, self.a20), fx_mul(self.a00, self.a21)), d),
                    a22: fx_div(fx_sub(fx_mul(self.a00, self.a11), fx_mul(self.a01, self.a10)), d),
                },
            )
        }
    }

    /// The image of a vector under this linear map.
    pub open spec fn spec_apply(self, v: Vec3) -> Vec3 {
        Vec3 {
            x: spec_mm3(self.a00, self.a01, self.a02, v.x, v.y, v.z),
            y: spec_mm3(self.a10, self.a11, self.a12, v.x, v.y, v.z),
            z: spec_mm3(self.a20, self.a21, self.a22, v.x, v.y, v.z),
        }
    }

    pub fn apply(&self, v: &Vec3) -> (r: Vec3)
        ensures
            r == self.spec_apply(*v),
    {
        Vec3 {
            x: mm3(self.a00, self.a01, self.a02, v.x, v.y, v.z),
            y: mm3(self.a10, self.a11, self.a12, v.x, v.y, v.z),
            z: mm3(self.a20, self.a21, self.a22, v.x, v.y, v.z),
        }
    }
}

/// The components of a unit vector stay within the fixed-point one.
pub proof fn lemma_normalized_bounds(v: Vec3)
    requires
        v.spec_in_range(),
        v.spec_magnitude() != 0,
    ensures
        v.spec_normalized() is Some,
        ({
            let u = v.spec_normalized()->Some_0;
            -FX_ONE <= u.x <= FX_ONE && -FX_ONE <= u.y <= FX_ONE && -FX_ONE <= u.z <= FX_ONE
        }),
{
    let s = (v.x * v.x + v.y * v.y + v.z * v.z) as nat;
    let m = sqrt_floor(s);
    lemma_squares_nonneg(v.x as int, v.y as int, v.z as int);
    lemma_mul_abs_bound(v.x as int, v.x as int, VEC_LIMIT as int, VEC_LIMIT as int);
    lemma_mul_abs_bound(v.y as int, v.y as int, VEC_LIMIT as int, VEC_LIMIT as int);
    lemma_mul_abs_bound(v.z as int, v.z as int, VEC_LIMIT as int, VEC_LIMIT as int);
    lemma_sqrt_floor_props(s);
    lemma_root_fits(s, m);
    lemma_component_below_root(v.x as int, s as int, m as int);
    lemma_component_below_root(v.y as int, s as int, m as int);
    lemma_component_below_root(v.z as int, s as int, m as int);
    lemma_div_component(v.x as int, m as int);
    lemma_div_component(v.y as int, m as int);
    lemma_div_component(v.z as int, m as int);
}

/// A component of a vector is no larger in magnitude than the root of the
/// sum of squares.
proof fn lemma_component_below_root(x: int, s: int, m: int)
    by (nonlinear_arith)
    requires
        x * x <= s,
        m >= 0,
        m * m <= s,
        s < (m + 1) * (m + 1),
    ensures
        -m <= x <= m,
{
}

/// Dividing a component by a bound at least its magnitude lands in
/// `[-FX_ONE, FX_ONE]`.
proof fn lemma_div_component(x: int, m: int)
    requires
        m > 0,
        -m <= x <= m,
    ensures
        ({
            let q = (x * FX_ONE) / m;
            -FX_ONE <= q <= FX_ONE
        }),
{
    lemma_mul_abs_bound(x, FX_ONE as int, m, FX_ONE as int);
    vstd::arithmetic::mul::lemma_mul_is_commutative(m, FX_ONE as int);
    crate::fixed::lemma_div_pos_magnitude(x * FX_ONE, m, FX_ONE as int);
}

/// Multiplying by the fixed-point one is exact for every value.
pub proof fn lemma_fx_mul_one(x: i64)
    ensures
        spec_fx_mul(FX_ONE, x) == x,
        spec_fx_mul(x, FX_ONE) == x,
{
    assert((FX_ONE * x) / (FX_ONE as int) == x && (x * FX_ONE) / (FX_ONE as int) == x)
        by (nonlinear_arith);
}

/// Multiplying by zero gives zero.
pub proof fn lemma_fx_mul_zero(x: i64)
    ensures
        spec_fx_mul(0, x) == 0,
        spec_fx_mul(x, 0) == 0,
{
    assert((0 * x) / (FX_ONE as int) == 0 && (x * 0) / (FX_ONE as int) == 0) by (nonlinear_arith);
}

/// The identity transform moves no point.
pub proof fn lemma_apply_identity(v: Vec4)
    ensures
        Mat4::spec_identity().spec_apply(v) == v,
{
    lemma_fx_mul_one(v.x);
    lemma_fx_mul_one(v.y);
    lemma_fx_mul_one(v.z);
    lemma_fx_mul_one(v.w);
    lemma_fx_mul_zero(v.x);
    lemma_fx_mul_zero(v.y);
    lemma_fx_mul_zero(v.z);
    lemma_fx_mul_zero(v.w);
}

/// The identity linear map moves no vector.
pub proof fn lemma_apply3_identity(v: Vec3)
    ensures
        Mat3::spec_identity().spec_apply(v) == v,
{
    lemma_fx_mul_one(v.x);
    lemma_fx_mul_one(v.y);
    lemma_fx_mul_one(v.z);
    lemma_fx_mul_zero(v.x);
    lemma_fx_mul_zero(v.y);
    lemma_fx_mul_zero(v.z);
}

} // verus!
