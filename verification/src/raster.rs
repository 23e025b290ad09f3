//! The triangle rasterizer: barycentric scan of the bounding box.
//!
//! Screen coordinates are fixed-point; pixels are sampled at integer
//! coordinates. A pixel is covered exactly when all three barycentric
//! weights (signed edge areas) lie on the area's side of zero; a zero-area
//! triangle covers nothing. Covered pixels get a fragment whose depth and
//! attributes are the barycentric-weighted sums of the vertex values.

use crate::fixed::{
    fx_ceil, fx_floor, fx_max, fx_min, lemma_div_pos_bounds, lemma_div_pos_magnitude,
    lemma_mul_abs_bound, sat64, spec_fx_ceil, spec_fx_floor, spec_fx_max, spec_fx_min,
    spec_sat64, FX_ONE,
};
use crate::fragment::Fragment;
use crate::linalg::Vec3;
use crate::vertex::Vertex;
use vstd::arithmetic::div_mod::{lemma_fundamental_div_mod, lemma_mod_division_less_than_divisor};
use vstd::arithmetic::mul::{lemma_mul_inequality, lemma_mul_is_commutative};
use vstd::prelude::*;

verus! {

/// Screen coordinates and vertex attributes handed to the rasterizer stay
/// within this bound, so that every edge product fits the wide type.
pub const RASTER_LIMIT: i64 = 0x7FFF_FFFF_FFFF;

/// Twice the signed area of the triangle `(a, b, p)`.
pub open spec fn orient(ax: int, ay: int, bx: int, by: int, px: int, py: int) -> int {
    (bx - ax) * (py - ay) - (by - ay) * (px - ax)
}

/// The screen x of a transformed vertex.
pub open spec fn sx(v: Vertex) -> int {
    v.transformed_position.x as int
}

/// The screen y of a transformed vertex.
pub open spec fn sy(v: Vertex) -> int {
    v.transformed_position.y as int
}

/// Twice the triangle's signed screen area.
pub open spec fn spec_area(a: Vertex, b: Vertex, c: Vertex) -> int {
    orient(sx(a), sy(a), sx(b), sy(b), sx(c), sy(c))
}

/// The raw barycentric weight of `a` at pixel `(px, py)`.
pub open spec fn spec_w0(a: Vertex, b: Vertex, c: Vertex, px: int, py: int) -> int {
    orient(sx(b), sy(b), sx(c), sy(c), px * FX_ONE, py * FX_ONE)
}

/// The raw barycentric weight of `b` at pixel `(px, py)`.
pub open spec fn spec_w1(a: Vertex, b: Vertex, c: Vertex, px: int, py: int) -> int {
    orient(sx(c), sy(c), sx(a), sy(a), px * FX_ONE, py * FX_ONE)
}

/// The raw barycentric weight of `c` at pixel `(px, py)`.
pub open spec fn spec_w2(a: Vertex, b: Vertex, c: Vertex, px: int, py: int) -> int {
    orient(sx(a), sy(a), sx(b), sy(b), px * FX_ONE, py * FX_ONE)
}

/// Pixel `(px, py)` is covered: the triangle has non-zero area and all
/// three barycentric weights are non-negative (after normalizing by the
/// area's sign).
pub open spec fn spec_covered(a: Vertex, b: Vertex, c: Vertex, px: int, py: int) -> bool {
    let area = spec_area(a, b, c);
    let w0 = spec_w0(a, b, c, px, py);
    let w1 = spec_w1(a, b, c, px, py);
    let w2 = spec_w2(a, b, c, px, py);
    (area > 0 && w0 >= 0 && w1 >= 0 && w2 >= 0) || (area < 0 && w0 <= 0 && w1 <= 0 && w2 <= 0)
}

/// An orientation can be read off the two points relative to the query
/// point: it is the cross product of `b - p` and `c - p`.
proof fn lemma_orient_relative(bx: int, by: int, cx: int, cy: int, px: int, py: int)
    by (nonlinear_arith)
    ensures
        (cx - bx) * (py - by) - (cy - by) * (px - bx) == (bx - px) * (cy - py) - (by - py) * (cx
            - px),
{
}

/// In coordinates relative to the query point, the three weights sum to the
/// cross product of the two edge vectors.
proof fn lemma_sum_relative(ux: int, uy: int, vx: int, vy: int, wx: int, wy: int)
    by (nonlinear_arith)
    ensures
        ((vx) * (wy) - (vy) * (wx)) + ((wx) * (uy) - (wy) * (ux)) + ((ux) * (vy) - (uy) * (vx))
            == (vx - ux) * (wy - uy) - (vy - uy) * (wx - ux),
{
}

/// In coordinates relative to the query point, the weights combine the
/// three corner offsets to zero: the weights are barycentric.
proof fn lemma_bary_relative(ux: int, uy: int, vx: int, vy: int, wx: int, wy: int)
    by (nonlinear_arith)
    ensures
        ((vx) * (wy) - (vy) * (wx)) * ux + ((wx) * (uy) - (wy) * (ux)) * vx + ((ux) * (vy) - (uy)
            * (vx)) * wx == 0,
        ((vx) * (wy) - (vy) * (wx)) * uy + ((wx) * (uy) - (wy) * (ux)) * vy + ((ux) * (vy) - (uy)
            * (vx)) * wy == 0,
{
}

/// The three raw weights always sum to the area, at every pixel.
pub proof fn lemma_weight_sum(a: Vertex, b: Vertex, c: Vertex, px: int, py: int)
    ensures
        spec_w0(a, b, c, px, py) + spec_w1(a, b, c, px, py) + spec_w2(a, b, c, px, py)
            == spec_area(a, b, c),
{
    let pxe = px * FX_ONE;
    let pye = py * FX_ONE;
    let ux = sx(a) - pxe;
    let uy = sy(a) - pye;
    let vx = sx(b) - pxe;
    let vy = sy(b) - pye;
    let wx = sx(c) - pxe;
    let wy = sy(c) - pye;
    lemma_orient_relative(sx(b), sy(b), sx(c), sy(c), pxe, pye);
    lemma_orient_relative(sx(c), sy(c), sx(a), sy(a), pxe, pye);
    lemma_orient_relative(sx(a), sy(a), sx(b), sy(b), pxe, pye);
    lemma_orient_relative(sx(a), sy(a), sx(b), sy(b), sx(c), sy(c));
    lemma_sum_relative(ux, uy, vx, vy, wx, wy);
    lemma_orient_relative(sx(b), sy(b), sx(c), sy(c), sx(a), sy(a));
    assert(spec_area(a, b, c) == (vx - ux) * (wy - uy) - (vy - uy) * (wx - ux)) by {
        assert(sx(b) - sx(a) == vx - ux && sy(b) - sy(a) == vy - uy && sx(c) - sx(a) == wx - ux
            && sy(c) - sy(a) == wy - uy);
    }
}

/// In coordinates relative to the pixel, the weighted corner offsets cancel:
/// the weights are barycentric coordinates of the pixel.
pub proof fn lemma_barycentric_identity(a: Vertex, b: Vertex, c: Vertex, px: int, py: int)
    ensures
        spec_w0(a, b, c, px, py) * (sx(a) - px * FX_ONE) + spec_w1(a, b, c, px, py) * (sx(b) - px
            * FX_ONE) + spec_w2(a, b, c, px, py) * (sx(c) - px * FX_ONE) == 0,
        spec_w0(a, b, c, px, py) * (sy(a) - py * FX_ONE) + spec_w1(a, b, c, px, py) * (sy(b) - py
            * FX_ONE) + spec_w2(a, b, c, px, py) * (sy(c) - py * FX_ONE) == 0,
{
    let pxe = px * FX_ONE;
    let pye = py * FX_ONE;
    let ux = sx(a) - pxe;
    let uy = sy(a) - pye;
    let vx = sx(b) - pxe;
    let vy = sy(b) - pye;
    let wx = sx(c) - pxe;
    let wy = sy(c) - pye;
    lemma_orient_relative(sx(b), sy(b), sx(c), sy(c), pxe, pye);
    lemma_orient_relative(sx(c), sy(c), sx(a), sy(a), pxe, pye);
    lemma_orient_relative(sx(a), sy(a), sx(b), sy(b), pxe, pye);
    lemma_bary_relative(ux, uy, vx, vy, wx, wy);
}

/// Swapping the second and third vertex negates the area and permutes the
/// weights with a sign flip, so coverage is unchanged.
pub proof fn lemma_swap_orientation(a: Vertex, b: Vertex, c: Vertex, px: int, py: int)
    ensures
        spec_area(a, c, b) == -spec_area(a, b, c),
        spec_w0(a, c, b, px, py) == -spec_w0(a, b, c, px, py),
        spec_w1(a, c, b, px, py) == -spec_w2(a, b, c, px, py),
        spec_w2(a, c, b, px, py) == -spec_w1(a, b, c, px, py),
        spec_covered(a, c, b, px, py) == spec_covered(a, b, c, px, py),
{
    lemma_orient_antisymmetric(sx(a), sy(a), sx(b), sy(b), sx(c), sy(c));
    lemma_orient_swap_first(sx(b), sy(b), sx(c), sy(c), px * FX_ONE, py * FX_ONE);
    lemma_orient_swap_first(sx(a), sy(a), sx(b), sy(b), px * FX_ONE, py * FX_ONE);
    lemma_orient_swap_first(sx(c), sy(c), sx(a), sy(a), px * FX_ONE, py * FX_ONE);
}

/// Exchanging the last two points of an orientation negates it.
proof fn lemma_orient_antisymmetric(ax: int, ay: int, bx: int, by: int, px: int, py: int)
    by (nonlinear_arith)
    ensures
        ((px - ax) * (by - ay) - (py - ay) * (bx - ax)) == -((bx - ax) * (py - ay) - (by - ay) * (
        px - ax)),
{
}

/// Exchanging the first two points of an orientation negates it.
proof fn lemma_orient_swap_first(ax: int, ay: int, bx: int, by: int, px: int, py: int)
    by (nonlinear_arith)
    ensures
        ((ax - bx) * (py - by) - (ay - by) * (px - bx)) == -((bx - ax) * (py - ay) - (by - ay) * (
        px - ax)),
{
}

/// At a covered pixel of a positive-area triangle, the normalized weights
/// are each in `[0, FX_ONE]` and their sum differs from one only by the
/// rounding of the three divisions.
pub proof fn lemma_normalized_weights(a: Vertex, b: Vertex, c: Vertex, px: int, py: int)
    requires
        spec_area(a, b, c) > 0,
        spec_w0(a, b, c, px, py) >= 0,
        spec_w1(a, b, c, px, py) >= 0,
        spec_w2(a, b, c, px, py) >= 0,
    ensures
        ({
            let area = spec_area(a, b, c);
            let q0 = (spec_w0(a, b, c, px, py) * FX_ONE) / area;
            let q1 = (spec_w1(a, b, c, px, py) * FX_ONE) / area;
            let q2 = (spec_w2(a, b, c, px, py) * FX_ONE) / area;
            0 <= q0 <= FX_ONE && 0 <= q1 <= FX_ONE && 0 <= q2 <= FX_ONE && FX_ONE - 2 <= q0 + q1
                + q2 <= FX_ONE
        }),
{
    let area = spec_area(a, b, c);
    let w0 = spec_w0(a, b, c, px, py);
    let w1 = spec_w1(a, b, c, px, py);
    let w2 = spec_w2(a, b, c, px, py);
    lemma_weight_sum(a, b, c, px, py);
    lemma_norm_weight_range(w0, area);
    lemma_norm_weight_range(w1, area);
    lemma_norm_weight_range(w2, area);
    let q0 = (w0 * FX_ONE) / area;
    let q1 = (w1 * FX_ONE) / area;
    let q2 = (w2 * FX_ONE) / area;
    lemma_fundamental_div_mod(w0 * FX_ONE, area);
    lemma_fundamental_div_mod(w1 * FX_ONE, area);
    lemma_fundamental_div_mod(w2 * FX_ONE, area);
    lemma_mod_division_less_than_divisor(w0 * FX_ONE, area);
    lemma_mod_division_less_than_divisor(w1 * FX_ONE, area);
    lemma_mod_division_less_than_divisor(w2 * FX_ONE, area);
    let r0 = (w0 * FX_ONE) % area;
    let r1 = (w1 * FX_ONE) % area;
    let r2 = (w2 * FX_ONE) % area;
    assert(FX_ONE - 2 <= q0 + q1 + q2 <= FX_ONE) by (nonlinear_arith)
        requires
            area > 0,
            w0 + w1 + w2 == area,
            w0 * FX_ONE == area * q0 + r0,
            w1 * FX_ONE == area * q1 + r1,
            w2 * FX_ONE == area * q2 + r2,
            0 <= r0 < area,
            0 <= r1 < area,
            0 <= r2 < area,
    ;
}

/// A raw weight between zero and the area normalizes into `[0, FX_ONE]`.
proof fn lemma_norm_weight_range(w: int, area: int)
    requires
        area > 0,
        0 <= w <= area,
    ensures
        0 <= (w * FX_ONE) / area <= FX_ONE,
{
    vstd::arithmetic::mul::lemma_mul_nonnegative(w, FX_ONE as int);
    lemma_div_pos_bounds(w * FX_ONE, area);
    lemma_mul_inequality(w, area, FX_ONE as int);
    vstd::arithmetic::div_mod::lemma_div_is_ordered(w * FX_ONE, area * FX_ONE, area);
    vstd::arithmetic::div_mod::lemma_div_multiples_vanish(FX_ONE as int, area);
    lemma_mul_is_commutative(area, FX_ONE as int);
}

/// The depth an emitted fragment carries is the barycentric-weighted sum
/// of the three vertex depths, by the normalized weights.
pub proof fn lemma_fragment_depth(a: Vertex, b: Vertex, c: Vertex, px: i64, py: i64)
    ensures
        ({
            let area = spec_area(a, b, c);
            let n0 = spec_norm_weight(spec_w0(a, b, c, px as int, py as int), area);
            let n1 = spec_norm_weight(spec_w1(a, b, c, px as int, py as int), area);
            let n2 = spec_norm_weight(spec_w2(a, b, c, px as int, py as int), area);
            spec_frag_at(a, b, c, px, py).depth == spec_interp3(
                n0,
                n1,
                n2,
                a.transformed_position.z,
                b.transformed_position.z,
                c.transformed_position.z,
            )
        }),
{
}

/// A covered pixel of a positive-area triangle lies inside the triangle's
/// pixel bounding box.
pub proof fn lemma_covered_in_bbox(a: Vertex, b: Vertex, c: Vertex, px: int, py: int)
    requires
        spec_area(a, b, c) > 0,
        spec_w0(a, b, c, px, py) >= 0,
        spec_w1(a, b, c, px, py) >= 0,
        spec_w2(a, b, c, px, py) >= 0,
    ensures
        ({
            let (xmin, xmax, ymin, ymax) = spec_bbox(a, b, c);
            xmin <= px <= xmax && ymin <= py <= ymax
        }),
{
    let w0 = spec_w0(a, b, c, px, py);
    let w1 = spec_w1(a, b, c, px, py);
    let w2 = spec_w2(a, b, c, px, py);
    let pxe = px * FX_ONE;
    let pye = py * FX_ONE;
    lemma_weight_sum(a, b, c, px, py);
    lemma_barycentric_identity(a, b, c, px, py);
    lemma_axis_bounds(w0, w1, w2, sx(a), sx(b), sx(c), pxe);
    lemma_axis_bounds(w0, w1, w2, sy(a), sy(b), sy(c), pye);
    lemma_pixel_bounds(
        spec_fx_min(
            spec_fx_min(a.transformed_position.x, b.transformed_position.x),
            c.transformed_position.x,
        ) as int,
        spec_fx_max(
            spec_fx_max(a.transformed_position.x, b.transformed_position.x),
            c.transformed_position.x,
        ) as int,
        px,
    );
    lemma_pixel_bounds(
        spec_fx_min(
            spec_fx_min(a.transformed_position.y, b.transformed_position.y),
            c.transformed_position.y,
        ) as int,
        spec_fx_max(
            spec_fx_max(a.transformed_position.y, b.transformed_position.y),
            c.transformed_position.y,
        ) as int,
        py,
    );
}

/// Along one axis, a point with non-negative barycentric weights lies
/// between the smallest and largest vertex coordinate.
proof fn lemma_axis_bounds(w0: int, w1: int, w2: int, v0: int, v1: int, v2: int, p: int)
    requires
        w0 >= 0,
        w1 >= 0,
        w2 >= 0,
        w0 + w1 + w2 > 0,
        w0 * (v0 - p) + w1 * (v1 - p) + w2 * (v2 - p) == 0,
    ensures
        v0 <= p || v1 <= p || v2 <= p,
        p <= v0 || p <= v1 || p <= v2,
{
    if p < v0 && p < v1 && p < v2 {
        lemma_sign_contradiction(w0, w1, w2, v0 - p, v1 - p, v2 - p);
    }
    if v0 < p && v1 < p && v2 < p {
        lemma_sign_contradiction(w0, w1, w2, p - v0, p - v1, p - v2);
        vstd::arithmetic::mul::lemma_mul_unary_negation(w0, v0 - p);
        vstd::arithmetic::mul::lemma_mul_unary_negation(w1, v1 - p);
        vstd::arithmetic::mul::lemma_mul_unary_negation(w2, v2 - p);
        assert(w0 * (p - v0) == -(w0 * (v0 - p)));
        assert(w1 * (p - v1) == -(w1 * (v1 - p)));
        assert(w2 * (p - v2) == -(w2 * (v2 - p)));
    }
}

/// Non-negative weights, not all zero, against strictly positive offsets
/// make a strictly positive sum.
proof fn lemma_sign_contradiction(w0: int, w1: int, w2: int, d0: int, d1: int, d2: int)
    requires
        w0 >= 0,
        w1 >= 0,
        w2 >= 0,
        w0 + w1 + w2 > 0,
        d0 > 0,
        d1 > 0,
        d2 > 0,
    ensures
        w0 * d0 + w1 * d1 + w2 * d2 > 0,
{
    vstd::arithmetic::mul::lemma_mul_nonnegative(w0, d0);
    vstd::arithmetic::mul::lemma_mul_nonnegative(w1, d1);
    vstd::arithmetic::mul::lemma_mul_nonnegative(w2, d2);
    if w0 > 0 {
        vstd::arithmetic::mul::lemma_mul_strictly_positive(w0, d0);
    } else if w1 > 0 {
        vstd::arithmetic::mul::lemma_mul_strictly_positive(w1, d1);
    } else {
        vstd::arithmetic::mul::lemma_mul_strictly_positive(w2, d2);
    }
}

/// A pixel whose fixed-point position lies between two bounds lies between
/// the ceiling pixel of the lower and the floor pixel of the upper.
proof fn lemma_pixel_bounds(lo: int, hi: int, p: int)
    requires
        lo <= p * FX_ONE <= hi,
        -0x8000_0000_0000_0000 <= lo <= 0x7FFF_FFFF_FFFF_FFFF,
        -0x8000_0000_0000_0000 <= hi <= 0x7FFF_FFFF_FFFF_FFFF,
    ensures
        ((lo + FX_ONE - 1) / (FX_ONE as int)) as i64 <= p,
        p <= (hi / (FX_ONE as int)) as i64,
{
    let one = FX_ONE as int;
    vstd::arithmetic::div_mod::lemma_div_is_ordered(lo + one - 1, p * one + one - 1, one);
    lemma_mul_is_commutative(p, one);
    vstd::arithmetic::div_mod::lemma_div_multiples_vanish_fancy(p, one - 1, one);
    assert(((lo + one - 1) / one) <= p);
    vstd::arithmetic::div_mod::lemma_div_is_ordered(p * one, hi, one);
    vstd::arithmetic::div_mod::lemma_div_multiples_vanish(p, one);
    assert(p <= hi / one);
    lemma_div_pos_bounds(lo + one - 1, one);
    lemma_div_pos_bounds(hi, one);
    vstd::arithmetic::div_mod::lemma_div_is_ordered(
        -0x8000_0000_0000_0000,
        lo + one - 1,
        one,
    );
    vstd::arithmetic::div_mod::lemma_div_is_ordered(
        lo + one - 1,
        0x7FFF_FFFF_FFFF_FFFF + one - 1,
        one,
    );
    vstd::arithmetic::div_mod::lemma_div_is_ordered(-0x8000_0000_0000_0000, hi, one);
    vstd::arithmetic::div_mod::lemma_div_is_ordered(hi, 0x7FFF_FFFF_FFFF_FFFF, one);
}

/// A normalized barycentric weight: the raw weight rescaled to `[0, FX_ONE]`
/// by the area.
pub open spec fn spec_norm_weight(w: int, area: int) -> i64 {
    ((w * FX_ONE) / area) as i64
}

/// The barycentric-weighted sum of three attribute values, by normalized
/// weights.
pub open spec fn spec_interp3(n0: i64, n1: i64, n2: i64, v0: i64, v1: i64, v2: i64) -> i64 {
    spec_sat64((n0 * v0 + n1 * v1 + n2 * v2) / (FX_ONE as int))
}

/// The light direction that fragment intensity is measured against.
pub open spec fn spec_light_dir() -> Vec3 {
    Vec3 { x: 0, y: 0, z: FX_ONE }
}

/// A fragment's lighting intensity: the clamped dot product of its unit
/// normal with the light direction, or zero for a degenerate normal.
pub open spec fn spec_intensity(n: Vec3) -> i64 {
    match n.spec_normalized() {
        Option::None => 0,
        Option::Some(u) => spec_fx_max(0, u.spec_dot(spec_light_dir())),
    }
}

/// The fragment emitted at a covered pixel: normalized weights, then the
/// weighted depth, normal and object-space position, and the intensity of
/// the interpolated normal.
pub open spec fn spec_frag_at(a: Vertex, b: Vertex, c: Vertex, px: i64, py: i64) -> Fragment {
    let area = spec_area(a, b, c);
    let n0 = spec_norm_weight(spec_w0(a, b, c, px as int, py as int), area);
    let n1 = spec_norm_weight(spec_w1(a, b, c, px as int, py as int), area);
    let n2 = spec_norm_weight(spec_w2(a, b, c, px as int, py as int), area);
    let normal = Vec3 {
        x: spec_interp3(
            n0,
            n1,
            n2,
            a.transformed_normal.x,
            b.transformed_normal.x,
            c.transformed_normal.x,
        ),
        y: spec_interp3(
            n0,
            n1,
            n2,
            a.transformed_normal.y,
            b.transformed_normal.y,
            c.transformed_normal.y,
        ),
        z: spec_interp3(
            n0,
            n1,
            n2,
            a.transformed_normal.z,
            b.transformed_normal.z,
            c.transformed_normal.z,
        ),
    };
    Fragment {
        x: px,
        y: py,
        depth: spec_interp3(
            n0,
            n1,
            n2,
            a.transformed_position.z,
            b.transformed_position.z,
            c.transformed_position.z,
        ),
        normal,
        intensity: spec_intensity(normal),
        vertex_position: Vec3 {
            x: spec_interp3(n0, n1, n2, a.position.x, b.position.x, c.position.x),
            y: spec_interp3(n0, n1, n2, a.position.y, b.position.y, c.position.y),
            z: spec_interp3(n0, n1, n2, a.position.z, b.position.z, c.position.z),
        },
    }
}

/// Every screen coordinate and attribute of the three vertices is within
/// the rasterizer's range.
pub open spec fn spec_vertex_in_range(v: Vertex) -> bool {
    &&& -RASTER_LIMIT <= v.transformed_position.x <= RASTER_LIMIT
    &&& -RASTER_LIMIT <= v.transformed_position.y <= RASTER_LIMIT
    &&& -RASTER_LIMIT <= v.transformed_position.z <= RASTER_LIMIT
    &&& -RASTER_LIMIT <= v.transformed_normal.x <= RASTER_LIMIT
    &&& -RASTER_LIMIT <= v.transformed_normal.y <= RASTER_LIMIT
    &&& -RASTER_LIMIT <= v.transformed_normal.z <= RASTER_LIMIT
    &&& -RASTER_LIMIT <= v.position.x <= RASTER_LIMIT
    &&& -RASTER_LIMIT <= v.position.y <= RASTER_LIMIT
    &&& -RASTER_LIMIT <= v.position.z <= RASTER_LIMIT
}

pub open spec fn spec_tri_in_range(a: Vertex, b: Vertex, c: Vertex) -> bool {
    spec_vertex_in_range(a) && spec_vertex_in_range(b) && spec_vertex_in_range(c)
}

/// Runtime check for `spec_vertex_in_range`.
pub fn vertex_in_range(v: &Vertex) -> (r: bool)
    ensures
        r == spec_vertex_in_range(*v),
{
    let p = v.transformed_position;
    let n = v.transformed_normal;
    let q = v.position;
    -RASTER_LIMIT <= p.x && p.x <= RASTER_LIMIT && -RASTER_LIMIT <= p.y && p.y <= RASTER_LIMIT
        && -RASTER_LIMIT <= p.z && p.z <= RASTER_LIMIT && -RASTER_LIMIT <= n.x && n.x
        <= RASTER_LIMIT && -RASTER_LIMIT <= n.y && n.y <= RASTER_LIMIT && -RASTER_LIMIT <= n.z
        && n.z <= RASTER_LIMIT && -RASTER_LIMIT <= q.x && q.x <= RASTER_LIMIT && -RASTER_LIMIT
        <= q.y && q.y <= RASTER_LIMIT && -RASTER_LIMIT <= q.z && q.z <= RASTER_LIMIT
}

/// The scan's bounding box: the pixel range enclosing the three screen
/// vertices, `(xmin, xmax, ymin, ymax)`.
pub open spec fn spec_bbox(a: Vertex, b: Vertex, c: Vertex) -> (i64, i64, i64, i64) {
    let axv = a.transformed_position.x;
    let bxv = b.transformed_position.x;
    let cxv = c.transformed_position.x;
    let ayv = a.transformed_position.y;
    let byv = b.transformed_position.y;
    let cyv = c.transformed_position.y;
    (
        spec_fx_ceil(spec_fx_min(spec_fx_min(axv, bxv), cxv)),
        spec_fx_floor(spec_fx_max(spec_fx_max(axv, bxv), cxv)),
        spec_fx_ceil(spec_fx_min(spec_fx_min(ayv, byv), cyv)),
        spec_fx_floor(spec_fx_max(spec_fx_max(ayv, byv), cyv)),
    )
}

/// All three raw weights are non-negative at the pixel (the interior test
/// for a positive-area triangle).
pub open spec fn spec_inside_pos(a: Vertex, b: Vertex, c: Vertex, px: int, py: int) -> bool {
    spec_w0(a, b, c, px, py) >= 0 && spec_w1(a, b, c, px, py) >= 0 && spec_w2(a, b, c, px, py)
        >= 0
}

/// The fragments (none or one) the scan emits at a single pixel, assuming
/// positive area.
pub open spec fn spec_cell(a: Vertex, b: Vertex, c: Vertex, px: i64, py: i64) -> Seq<Fragment> {
    if spec_inside_pos(a, b, c, px as int, py as int) {
        seq![spec_frag_at(a, b, c, px, py)]
    } else {
        Seq::empty()
    }
}

/// The fragments of row `py` for pixels in `[xmin, x)`.
pub open spec fn spec_row_upto(
    a: Vertex,
    b: Vertex,
    c: Vertex,
    py: i64,
    xmin: i64,
    x: int,
) -> Seq<Fragment>
    decreases x - xmin,
{
    if x <= xmin {
        Seq::empty()
    } else {
        spec_row_upto(a, b, c, py, xmin, x - 1) + spec_cell(a, b, c, (x - 1) as i64, py)
    }
}

/// The fragments of all full rows in `[ymin, y)`, each row scanning
/// `[xmin, xmax]`.
pub open spec fn spec_rows_upto(
    a: Vertex,
    b: Vertex,
    c: Vertex,
    xmin: i64,
    xmax: i64,
    ymin: i64,
    y: int,
) -> Seq<Fragment>
    decreases y - ymin,
{
    if y <= ymin {
        Seq::empty()
    } else {
        spec_rows_upto(a, b, c, xmin, xmax, ymin, y - 1) + spec_row_upto(
            a,
            b,
            c,
            (y - 1) as i64,
            xmin,
            xmax + 1,
        )
    }
}

/// The whole scan of a positive-area triangle.
pub open spec fn spec_scan(a: Vertex, b: Vertex, c: Vertex) -> Seq<Fragment> {
    let (xmin, xmax, ymin, ymax) = spec_bbox(a, b, c);
    spec_rows_upto(a, b, c, xmin, xmax, ymin, ymax as int + 1)
}

/// The rasterizer's output: nothing for a zero-area triangle, otherwise the
/// scan of the triangle brought to positive orientation.
#[verifier::opaque]
pub open spec fn spec_triangle(v1: Vertex, v2: Vertex, v3: Vertex) -> Seq<Fragment> {
    let area = spec_area(v1, v2, v3);
    if area == 0 {
        Seq::empty()
    } else if area > 0 {
        spec_scan(v1, v2, v3)
    } else {
        spec_scan(v1, v3, v2)
    }
}

/// An orientation of in-range points, exact in the wide type.
fn orient_at(ax: i64, ay: i64, bx: i64, by: i64, px: i64, py: i64) -> (r: i128)
    requires
        -RASTER_LIMIT <= ax <= RASTER_LIMIT,
        -RASTER_LIMIT <= ay <= RASTER_LIMIT,
        -RASTER_LIMIT <= bx <= RASTER_LIMIT,
        -RASTER_LIMIT <= by <= RASTER_LIMIT,
        -RASTER_LIMIT <= px <= RASTER_LIMIT,
        -RASTER_LIMIT <= py <= RASTER_LIMIT,
    ensures
        r == orient(ax as int, ay as int, bx as int, by as int, px as int, py as int),
        -0x2_0000_0000_0000_0000_0000_0000 <= r <= 0x2_0000_0000_0000_0000_0000_0000,
{
    proof {
        lemma_mul_abs_bound(
            bx - ax,
            py - ay,
            0x1_0000_0000_0000,
            0x1_0000_0000_0000,
        );
        lemma_mul_abs_bound(
            by - ay,
            px - ax,
            0x1_0000_0000_0000,
            0x1_0000_0000_0000,
        );
    }
    let dx1: i128 = (bx as i128) - (ax as i128);
    let dy2: i128 = (py as i128) - (ay as i128);
    let dy1: i128 = (by as i128) - (ay as i128);
    let dx2: i128 = (px as i128) - (ax as i128);
    dx1 * dy2 - dy1 * dx2
}

/// A raw weight rescaled by the area into a `[0, FX_ONE]` fixed-point
/// weight.
fn norm_weight(w: i128, area: i128) -> (r: i64)
    requires
        0 < area,
        0 <= w <= area,
        area <= 0x4_0000_0000_0000_0000_0000_0000,
    ensures
        r == spec_norm_weight(w as int, area as int),
        0 <= r <= FX_ONE,
{
    proof {
        lemma_norm_weight_range(w as int, area as int);
    }
    crate::fixed::div_pos(w * (FX_ONE as i128), area) as i64
}

/// The barycentric-weighted sum of three in-range attribute values.
fn interp3(n0: i64, n1: i64, n2: i64, v0: i64, v1: i64, v2: i64) -> (r: i64)
    requires
        0 <= n0 <= FX_ONE,
        0 <= n1 <= FX_ONE,
        0 <= n2 <= FX_ONE,
        -RASTER_LIMIT <= v0 <= RASTER_LIMIT,
        -RASTER_LIMIT <= v1 <= RASTER_LIMIT,
        -RASTER_LIMIT <= v2 <= RASTER_LIMIT,
    ensures
        r == spec_interp3(n0, n1, n2, v0, v1, v2),
        -3 * RASTER_LIMIT <= r <= 3 * RASTER_LIMIT,
{
    proof {
        lemma_mul_abs_bound(n0 as int, v0 as int, FX_ONE as int, RASTER_LIMIT as int);
        lemma_mul_abs_bound(n1 as int, v1 as int, FX_ONE as int, RASTER_LIMIT as int);
        lemma_mul_abs_bound(n2 as int, v2 as int, FX_ONE as int, RASTER_LIMIT as int);
        lemma_div_pos_magnitude(
            n0 as int * v0 + n1 as int * v1 + n2 as int * v2,
            FX_ONE as int,
            3 * RASTER_LIMIT as int,
        );
    }
    let sum: i128 = (n0 as i128) * (v0 as i128) + (n1 as i128) * (v1 as i128) + (n2 as i128) * (
    v2 as i128);
    sat64(crate::fixed::div_pos(sum, FX_ONE as i128))
}

/// The light direction fragments are lit against.
pub fn light_dir() -> (v: Vec3)
    ensures
        v == spec_light_dir(),
{
    Vec3 { x: 0, y: 0, z: FX_ONE }
}

/// Builds the fragment of one covered pixel.
fn frag_at(a: &Vertex, b: &Vertex, c: &Vertex, px: i64, py: i64) -> (f: Fragment)
    requires
        spec_tri_in_range(*a, *b, *c),
        spec_area(*a, *b, *c) > 0,
        spec_inside_pos(*a, *b, *c, px as int, py as int),
        -RASTER_LIMIT <= px * FX_ONE <= RASTER_LIMIT,
        -RASTER_LIMIT <= py * FX_ONE <= RASTER_LIMIT,
    ensures
        f == spec_frag_at(*a, *b, *c, px, py),
{
    let pxe: i64 = px * FX_ONE;
    let pye: i64 = py * FX_ONE;
    let tp_a = a.transformed_position;
    let tp_b = b.transformed_position;
    let tp_c = c.transformed_position;
    let area = orient_at(tp_a.x, tp_a.y, tp_b.x, tp_b.y, tp_c.x, tp_c.y);
    let w0 = orient_at(tp_b.x, tp_b.y, tp_c.x, tp_c.y, pxe, pye);
    let w1 = orient_at(tp_c.x, tp_c.y, tp_a.x, tp_a.y, pxe, pye);
    let w2 = orient_at(tp_a.x, tp_a.y, tp_b.x, tp_b.y, pxe, pye);
    proof {
        lemma_weight_sum(*a, *b, *c, px as int, py as int);
    }
    let n0 = norm_weight(w0, area);
    let n1 = norm_weight(w1, area);
    let n2 = norm_weight(w2, area);
    let normal = Vec3 {
        x: interp3(
            n0,
            n1,
            n2,
            a.transformed_normal.x,
            b.transformed_normal.x,
            c.transformed_normal.x,
        ),
        y: interp3(
            n0,
            n1,
            n2,
            a.transformed_normal.y,
            b.transformed_normal.y,
            c.transformed_normal.y,
        ),
        z: interp3(
            n0,
            n1,
            n2,
            a.transformed_normal.z,
            b.transformed_normal.z,
            c.transformed_normal.z,
        ),
    };
    let intensity = match normal.normalized() {
        Option::Some(u) => fx_max(0, u.dot(&light_dir())),
        Option::None => 0,
    };
    Fragment {
        x: px,
        y: py,
        depth: interp3(n0, n1, n2, tp_a.z, tp_b.z, tp_c.z),
        normal,
        intensity,
        vertex_position: Vec3 {
            x: interp3(n0, n1, n2, a.position.x, b.position.x, c.position.x),
            y: interp3(n0, n1, n2, a.position.y, b.position.y, c.position.y),
            z: interp3(n0, n1, n2, a.position.z, b.position.z, c.position.z),
        },
    }
}

/// A coordinate clamped into a pixel scan range keeps its fixed-point form
/// within the coordinate range.
proof fn lemma_scan_pixel_range(lo: int, hi: int, p: int)
    requires
        -RASTER_LIMIT <= lo <= hi <= RASTER_LIMIT,
        (lo + FX_ONE - 1) / (FX_ONE as int) <= p <= hi / (FX_ONE as int),
    ensures
        -RASTER_LIMIT <= p * FX_ONE <= RASTER_LIMIT,
{
    let one = FX_ONE as int;
    let xmin = (lo + one - 1) / one;
    let xmax = hi / one;
    lemma_fundamental_div_mod(lo + one - 1, one);
    lemma_mod_division_less_than_divisor(lo + one - 1, one);
    lemma_fundamental_div_mod(hi, one);
    lemma_mod_division_less_than_divisor(hi, one);
    lemma_mul_inequality(xmin, p, one);
    lemma_mul_inequality(p, xmax, one);
    lemma_mul_is_commutative(xmin, one);
    lemma_mul_is_commutative(p, one);
    lemma_mul_is_commutative(xmax, one);
}

/// The rasterizer: emits exactly the scan of the triangle, row by row over
/// the bounding box, one fragment per covered pixel. See
/// `lemma_triangle_coverage` for the coverage statement.
pub fn triangle(v1: &Vertex, v2: &Vertex, v3: &Vertex) -> (frags: Vec<Fragment>)
    requires
        spec_tri_in_range(*v1, *v2, *v3),
    ensures
        frags@ == spec_triangle(*v1, *v2, *v3),
{
    proof {
        reveal(spec_triangle);
    }
    let tp_a = v1.transformed_position;
    let tp_b = v2.transformed_position;
    let tp_c = v3.transformed_position;
    let area = orient_at(tp_a.x, tp_a.y, tp_b.x, tp_b.y, tp_c.x, tp_c.y);
    if area == 0 {
        Vec::new()
    } else if area > 0 {
        scan(v1, v2, v3)
    } else {
        proof {
            lemma_swap_orientation(*v1, *v2, *v3, 0, 0);
        }
        scan(v1, v3, v2)
    }
}

/// The bounding-box scan of a positive-area triangle.
fn scan(a: &Vertex, b: &Vertex, c: &Vertex) -> (frags: Vec<Fragment>)
    requires
        spec_tri_in_range(*a, *b, *c),
        spec_area(*a, *b, *c) > 0,
    ensures
        frags@ == spec_scan(*a, *b, *c),
{
    let tp_a = a.transformed_position;
    let tp_b = b.transformed_position;
    let tp_c = c.transformed_position;
    let lox = fx_min(fx_min(tp_a.x, tp_b.x), tp_c.x);
    let hix = fx_max(fx_max(tp_a.x, tp_b.x), tp_c.x);
    let loy = fx_min(fx_min(tp_a.y, tp_b.y), tp_c.y);
    let hiy = fx_max(fx_max(tp_a.y, tp_b.y), tp_c.y);
    let xmin = fx_ceil(lox);
    let xmax = fx_floor(hix);
    let ymin = fx_ceil(loy);
    let ymax = fx_floor(hiy);
    proof {
        lemma_div_pos_bounds(lox as int + FX_ONE - 1, FX_ONE as int);
        lemma_div_pos_bounds(hix as int, FX_ONE as int);
        lemma_div_pos_bounds(loy as int + FX_ONE - 1, FX_ONE as int);
        lemma_div_pos_bounds(hiy as int, FX_ONE as int);
    }
    let mut out: Vec<Fragment> = Vec::new();
    let mut y: i64 = ymin;
    while y <= ymax
        invariant
            spec_tri_in_range(*a, *b, *c),
            spec_area(*a, *b, *c) > 0,
            tp_a == a.transformed_position,
            tp_b == b.transformed_position,
            tp_c == c.transformed_position,
            (xmin, xmax, ymin, ymax) == spec_bbox(*a, *b, *c),
            -RASTER_LIMIT <= lox <= RASTER_LIMIT,
            -RASTER_LIMIT <= hix <= RASTER_LIMIT,
            -RASTER_LIMIT <= loy <= RASTER_LIMIT,
            -RASTER_LIMIT <= hiy <= RASTER_LIMIT,
            xmin == (lox + FX_ONE - 1) as int / FX_ONE as int,
            xmax == hix as int / FX_ONE as int,
            ymin == (loy + FX_ONE - 1) as int / FX_ONE as int,
            ymax == hiy as int / FX_ONE as int,
            -RASTER_LIMIT <= ymin <= y,
            y <= ymax + 1,
            ymax <= RASTER_LIMIT,
            out@ == spec_rows_upto(*a, *b, *c, xmin, xmax, ymin, y as int),
        decreases ymax + 1 - y,
    {
        let mut x: i64 = xmin;
        while x <= xmax
            invariant
                spec_tri_in_range(*a, *b, *c),
                spec_area(*a, *b, *c) > 0,
                tp_a == a.transformed_position,
                tp_b == b.transformed_position,
                tp_c == c.transformed_position,
                -RASTER_LIMIT <= lox <= RASTER_LIMIT,
                -RASTER_LIMIT <= hix <= RASTER_LIMIT,
                -RASTER_LIMIT <= loy <= RASTER_LIMIT,
                -RASTER_LIMIT <= hiy <= RASTER_LIMIT,
                xmin == (lox + FX_ONE - 1) as int / FX_ONE as int,
                xmax == hix as int / FX_ONE as int,
                ymin == (loy + FX_ONE - 1) as int / FX_ONE as int,
                ymax == hiy as int / FX_ONE as int,
                -RASTER_LIMIT <= xmin <= x,
                x <= xmax + 1,
                xmax <= RASTER_LIMIT,
                ymin <= y <= ymax,
                out@ == spec_rows_upto(*a, *b, *c, xmin, xmax, ymin, y as int) + spec_row_upto(
                    *a,
                    *b,
                    *c,
                    y,
                    xmin,
                    x as int,
                ),
            decreases xmax + 1 - x,
        {
            proof {
                lemma_scan_pixel_range(lox as int, hix as int, x as int);
                lemma_scan_pixel_range(loy as int, hiy as int, y as int);
            }
            let pxe: i64 = x * FX_ONE;
            let pye: i64 = y * FX_ONE;
            let w0 = orient_at(tp_b.x, tp_b.y, tp_c.x, tp_c.y, pxe, pye);
            let w1 = orient_at(tp_c.x, tp_c.y, tp_a.x, tp_a.y, pxe, pye);
            let w2 = orient_at(tp_a.x, tp_a.y, tp_b.x, tp_b.y, pxe, pye);
            let ghost prev = out@;
            if w0 >= 0 && w1 >= 0 && w2 >= 0 {
                let f = frag_at(a, b, c, x, y);
                out.push(f);
            }
            proof {
                assert(spec_row_upto(*a, *b, *c, y, xmin, x as int + 1) == spec_row_upto(
                    *a,
                    *b,
                    *c,
                    y,
                    xmin,
                    x as int,
                ) + spec_cell(*a, *b, *c, x, y));
                assert(out@ =~= spec_rows_upto(*a, *b, *c, xmin, xmax, ymin, y as int)
                    + spec_row_upto(*a, *b, *c, y, xmin, x as int + 1));
            }
            x = x + 1;
        }
        proof {
            if xmin > xmax {
                assert(spec_row_upto(*a, *b, *c, y, xmin, x as int) =~= spec_row_upto(
                    *a,
                    *b,
                    *c,
                    y,
                    xmin,
                    xmax as int + 1,
                ));
            }
            assert(spec_rows_upto(*a, *b, *c, xmin, xmax, ymin, y as int + 1) == spec_rows_upto(
                *a,
                *b,
                *c,
                xmin,
                xmax,
                ymin,
                y as int,
            ) + spec_row_upto(*a, *b, *c, y, xmin, xmax as int + 1));
        }
        y = y + 1;
    }
    proof {
        if ymin > ymax {
            assert(spec_rows_upto(*a, *b, *c, xmin, xmax, ymin, y as int) =~= spec_rows_upto(
                *a,
                *b,
                *c,
                xmin,
                xmax,
                ymin,
                ymax as int + 1,
            ));
        }
        assert(out@ =~= spec_scan(*a, *b, *c));
    }
    out
}

/// Some fragment of the sequence sits at pixel `(px, py)`.
pub open spec fn contains_pixel(s: Seq<Fragment>, px: int, py: int) -> bool {
    exists|i: int| 0 <= i < s.len() && s[i].x == px && s[i].y == py
}

/// Pixel membership distributes over concatenation.
proof fn lemma_contains_concat(s1: Seq<Fragment>, s2: Seq<Fragment>, px: int, py: int)
    ensures
        contains_pixel(s1 + s2, px, py) <==> (contains_pixel(s1, px, py) || contains_pixel(
            s2,
            px,
            py,
        )),
{
    if contains_pixel(s1, px, py) {
        let i = choose|i: int| 0 <= i < s1.len() && s1[i].x == px && s1[i].y == py;
        assert((s1 + s2)[i].x == px && (s1 + s2)[i].y == py);
    }
    if contains_pixel(s2, px, py) {
        let i = choose|i: int| 0 <= i < s2.len() && s2[i].x == px && s2[i].y == py;
        assert((s1 + s2)[s1.len() + i].x == px && (s1 + s2)[s1.len() + i].y == py);
    }
    if contains_pixel(s1 + s2, px, py) {
        let i = choose|i: int| 0 <= i < (s1 + s2).len() && (s1 + s2)[i].x == px && (s1 + s2)[i].y
            == py;
        if i < s1.len() {
            assert(s1[i].x == px && s1[i].y == py);
        } else {
            assert(s2[i - s1.len()].x == px && s2[i - s1.len()].y == py);
        }
    }
}

/// Membership in one scanned row: exactly the covered pixels of that row
/// seen so far.
proof fn lemma_row_contains(
    a: Vertex,
    b: Vertex,
    c: Vertex,
    py: i64,
    xmin: i64,
    x: int,
    qx: int,
    qy: int,
)
    requires
        x <= 0x8000_0000_0000_0000,
    ensures
        contains_pixel(spec_row_upto(a, b, c, py, xmin, x), qx, qy) <==> (qy == py && xmin <= qx
            < x && spec_inside_pos(a, b, c, qx, qy)),
    decreases x - xmin,
{
    if x <= xmin {
    } else {
        lemma_row_contains(a, b, c, py, xmin, x - 1, qx, qy);
        lemma_contains_concat(
            spec_row_upto(a, b, c, py, xmin, x - 1),
            spec_cell(a, b, c, (x - 1) as i64, py),
            qx,
            qy,
        );
        let cell = spec_cell(a, b, c, (x - 1) as i64, py);
        if spec_inside_pos(a, b, c, x - 1, py as int) {
            assert(cell[0] == spec_frag_at(a, b, c, (x - 1) as i64, py));
            assert(contains_pixel(cell, x - 1, py as int));
            if contains_pixel(cell, qx, qy) {
                let i = choose|i: int| 0 <= i < cell.len() && cell[i].x == qx && cell[i].y == qy;
                assert(i == 0);
            }
        } else {
            assert(cell.len() == 0);
        }
    }
}

/// Membership in the scanned rows: exactly the covered pixels of the rows
/// seen so far.
proof fn lemma_rows_contains(
    a: Vertex,
    b: Vertex,
    c: Vertex,
    xmin: i64,
    xmax: i64,
    ymin: i64,
    y: int,
    qx: int,
    qy: int,
)
    requires
        y <= 0x8000_0000_0000_0000,
    ensures
        contains_pixel(spec_rows_upto(a, b, c, xmin, xmax, ymin, y), qx, qy) <==> (ymin <= qy < y
            && xmin <= qx <= xmax && spec_inside_pos(a, b, c, qx, qy)),
    decreases y - ymin,
{
    if y <= ymin {
    } else {
        lemma_rows_contains(a, b, c, xmin, xmax, ymin, y - 1, qx, qy);
        lemma_contains_concat(
            spec_rows_upto(a, b, c, xmin, xmax, ymin, y - 1),
            spec_row_upto(a, b, c, (y - 1) as i64, xmin, xmax as int + 1),
            qx,
            qy,
        );
        lemma_row_contains(a, b, c, (y - 1) as i64, xmin, xmax as int + 1, qx, qy);
    }
}

/// Every fragment of one scanned row sits in that row, inside the
/// triangle, and is exactly the fragment of its pixel.
proof fn lemma_row_elements(
    a: Vertex,
    b: Vertex,
    c: Vertex,
    py: i64,
    xmin: i64,
    x: int,
    i: int,
)
    requires
        x <= 0x8000_0000_0000_0000,
        0 <= i < spec_row_upto(a, b, c, py, xmin, x).len(),
    ensures
        ({
            let f = spec_row_upto(a, b, c, py, xmin, x)[i];
            &&& f.y == py
            &&& xmin <= f.x < x
            &&& spec_inside_pos(a, b, c, f.x as int, f.y as int)
            &&& f == spec_frag_at(a, b, c, f.x, f.y)
        }),
    decreases x - xmin,
{
    if x > xmin {
        let prev = spec_row_upto(a, b, c, py, xmin, x - 1);
        if i < prev.len() {
            lemma_row_elements(a, b, c, py, xmin, x - 1, i);
        } else {
            assert(spec_cell(a, b, c, (x - 1) as i64, py)[0] == spec_frag_at(
                a,
                b,
                c,
                (x - 1) as i64,
                py,
            ));
        }
    }
}

/// Every fragment of the scanned rows is exactly the fragment of its
/// covered pixel.
proof fn lemma_rows_elements(
    a: Vertex,
    b: Vertex,
    c: Vertex,
    xmin: i64,
    xmax: i64,
    ymin: i64,
    y: int,
    i: int,
)
    requires
        y <= 0x8000_0000_0000_0000,
        0 <= i < spec_rows_upto(a, b, c, xmin, xmax, ymin, y).len(),
    ensures
        ({
            let f = spec_rows_upto(a, b, c, xmin, xmax, ymin, y)[i];
            &&& spec_inside_pos(a, b, c, f.x as int, f.y as int)
            &&& f == spec_frag_at(a, b, c, f.x, f.y)
        }),
    decreases y - ymin,
{
    if y > ymin {
        let prev = spec_rows_upto(a, b, c, xmin, xmax, ymin, y - 1);
        if i < prev.len() {
            lemma_rows_elements(a, b, c, xmin, xmax, ymin, y - 1, i);
        } else {
            lemma_row_elements(
                a,
                b,
                c,
                (y - 1) as i64,
                xmin,
                xmax as int + 1,
                i - prev.len(),
            );
        }
    }
}

/// Every fragment the rasterizer emits sits at a covered pixel and is
/// exactly the barycentric fragment of that pixel (for the triangle in its
/// positive orientation). With `lemma_normalized_weights` and
/// `lemma_fragment_depth` this pins each emitted fragment's weights to
/// `[0, FX_ONE]` summing to one up to rounding, and its depth to their
/// weighted combination of the vertex depths.
pub proof fn lemma_triangle_elements(v1: Vertex, v2: Vertex, v3: Vertex, i: int)
    requires
        0 <= i < spec_triangle(v1, v2, v3).len(),
    ensures
        ({
            let f = spec_triangle(v1, v2, v3)[i];
            &&& spec_covered(v1, v2, v3, f.x as int, f.y as int)
            &&& (spec_area(v1, v2, v3) > 0 ==> f == spec_frag_at(v1, v2, v3, f.x, f.y))
            &&& (spec_area(v1, v2, v3) < 0 ==> f == spec_frag_at(v1, v3, v2, f.x, f.y))
        }),
{
    reveal(spec_triangle);
    let area = spec_area(v1, v2, v3);
    if area > 0 {
        let (xmin, xmax, ymin, ymax) = spec_bbox(v1, v2, v3);
        lemma_rows_elements(v1, v2, v3, xmin, xmax, ymin, ymax as int + 1, i);
    } else if area < 0 {
        let f = spec_triangle(v1, v2, v3)[i];
        lemma_swap_orientation(v1, v2, v3, f.x as int, f.y as int);
        let (xmin, xmax, ymin, ymax) = spec_bbox(v1, v3, v2);
        lemma_rows_elements(v1, v3, v2, xmin, xmax, ymin, ymax as int + 1, i);
    }
}

/// The rasterizer's coverage law: a pixel gets a fragment exactly when all
/// three barycentric weights lie on the area's side of zero, and a triangle
/// of zero area gets no fragments at all.
pub proof fn lemma_triangle_coverage(v1: Vertex, v2: Vertex, v3: Vertex, qx: int, qy: int)
    requires
        spec_tri_in_range(v1, v2, v3),
    ensures
        contains_pixel(spec_triangle(v1, v2, v3), qx, qy) <==> spec_covered(v1, v2, v3, qx, qy),
        spec_area(v1, v2, v3) == 0 ==> spec_triangle(v1, v2, v3).len() == 0,
{
    reveal(spec_triangle);
    let area = spec_area(v1, v2, v3);
    if area == 0 {
    } else if area > 0 {
        lemma_scan_coverage(v1, v2, v3, qx, qy);
    } else {
        lemma_swap_orientation(v1, v2, v3, qx, qy);
        lemma_scan_coverage(v1, v3, v2, qx, qy);
    }
}

/// Coverage for the canonical, positive-area scan.
proof fn lemma_scan_coverage(a: Vertex, b: Vertex, c: Vertex, qx: int, qy: int)
    requires
        spec_tri_in_range(a, b, c),
        spec_area(a, b, c) > 0,
    ensures
        contains_pixel(spec_scan(a, b, c), qx, qy) <==> spec_covered(a, b, c, qx, qy),
{
    let (xmin, xmax, ymin, ymax) = spec_bbox(a, b, c);
    lemma_rows_contains(a, b, c, xmin, xmax, ymin, ymax as int + 1, qx, qy);
    if spec_covered(a, b, c, qx, qy) {
        lemma_covered_in_bbox(a, b, c, qx, qy);
    }
}

} // verus!
