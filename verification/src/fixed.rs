//! Signed fixed-point arithmetic with 16 fractional bits.
//!
//! Every real-valued quantity of the renderer (coordinates, depths, noise
//! values, light factors) is an `i64` holding the value scaled by `FX_ONE`.
//! The operations saturate at the `i64` range instead of wrapping, and every
//! division moves the divisor's sign onto the dividend and then rounds toward
//! negative infinity, so each operation is a total, exactly specified
//! function.

use vstd::arithmetic::div_mod::{
    lemma_div_is_ordered, lemma_fundamental_div_mod, lemma_mod_division_less_than_divisor,
};
use vstd::prelude::*;

verus! {

/// The fixed-point representation of one (2^16).
pub const FX_ONE: i64 = 65536;

/// Half of `FX_ONE`.
pub const FX_HALF: i64 = 32768;

/// Two in the fixed-point scale.
pub const FX_TWO: i64 = 2 * FX_ONE;

/// Half a turn (pi scaled by `FX_ONE`, rounded to the nearest step).
pub const FX_PI: i64 = 205887;

/// A full turn (two pi) in fixed-point scale.
pub const FX_TAU: i64 = 2 * FX_PI;

/// A quarter turn (pi / 2 scaled by `FX_ONE`, rounded to the nearest step).
pub const FX_QUARTER_TAU: i64 = 102944;

/// Clamping a mathematical integer into the `i64` range.
pub open spec fn spec_sat64(v: int) -> i64 {
    if v < i64::MIN {
        i64::MIN
    } else if v > i64::MAX {
        i64::MAX
    } else {
        v as i64
    }
}

/// Clamps a wide intermediate value into the `i64` range.
pub fn sat64(v: i128) -> (r: i64)
    ensures
        r == spec_sat64(v as int),
{
    if v < i64::MIN as i128 {
        i64::MIN
    } else if v > i64::MAX as i128 {
        i64::MAX
    } else {
        v as i64
    }
}

/// The magnitude of a product is bounded by the product of the bounds.
pub proof fn lemma_mul_abs_bound(a: int, b: int, ka: int, kb: int)
    by (nonlinear_arith)
    requires
        -ka <= a <= ka,
        -kb <= b <= kb,
    ensures
        -(ka * kb) <= a * b <= ka * kb,
{
}

/// The quotient of a Euclidean division by a positive divisor lies between
/// the dividend and zero.
pub proof fn lemma_div_pos_bounds(a: int, b: int)
    requires
        b >= 1,
    ensures
        a >= 0 ==> 0 <= a / b <= a,
        a < 0 ==> a <= a / b <= 0,
{
    let q = a / b;
    let r = a % b;
    lemma_fundamental_div_mod(a, b);
    lemma_mod_division_less_than_divisor(a, b);
    assert((a >= 0 ==> 0 <= q <= a) && (a < 0 ==> a <= q <= 0)) by (nonlinear_arith)
        requires
            b >= 1,
            b * q == a - r,
            0 <= r < b,
    ;
}

/// A dividend within `k` multiples of a positive divisor has its quotient
/// within `k`.
pub proof fn lemma_div_pos_magnitude(a: int, b: int, k: int)
    requires
        b >= 1,
        k >= 0,
        -(k * b) <= a <= k * b,
    ensures
        -k <= a / b <= k,
{
    let q = a / b;
    let r = a % b;
    lemma_fundamental_div_mod(a, b);
    lemma_mod_division_less_than_divisor(a, b);
    assert(-k <= q <= k) by (nonlinear_arith)
        requires
            b >= 1,
            k >= 0,
            b * q == a - r,
            0 <= r < b,
            -(k * b) <= a <= k * b,
    ;
}

/// Euclidean division of wide intermediates by a positive divisor.
/// The result rounds toward negative infinity.
pub(crate) fn div_pos(a: i128, b: i128) -> (r: i128)
    requires
        b > 0,
        a > i128::MIN,
    ensures
        r == a as int / b as int,
        a >= 0 ==> 0 <= r <= a,
        a < 0 ==> a <= r <= 0,
{
    proof {
        lemma_div_pos_bounds(a as int, b as int);
    }
    match a.checked_div_euclid(b) {
        Some(q) => q,
        None => 0,
    }
}

/// Euclidean remainder of wide intermediates for a positive divisor.
fn rem_pos(a: i128, b: i128) -> (r: i128)
    requires
        b > 0,
    ensures
        r == a as int % b as int,
        0 <= r < b,
{
    proof {
        lemma_mod_division_less_than_divisor(a as int, b as int);
    }
    match a.checked_rem_euclid(b) {
        Some(m) => m,
        None => 0,
    }
}

/// Saturating fixed-point addition.
pub open spec fn spec_fx_add(a: i64, b: i64) -> i64 {
    spec_sat64(a + b)
}

#[verifier::when_used_as_spec(spec_fx_add)]
pub fn fx_add(a: i64, b: i64) -> (r: i64)
    ensures
        r == spec_fx_add(a, b),
{
    sat64(a as i128 + b as i128)
}

/// Saturating fixed-point subtraction.
pub open spec fn spec_fx_sub(a: i64, b: i64) -> i64 {
    spec_sat64(a - b)
}

#[verifier::when_used_as_spec(spec_fx_sub)]
pub fn fx_sub(a: i64, b: i64) -> (r: i64)
    ensures
        r == spec_fx_sub(a, b),
{
    sat64(a as i128 - b as i128)
}

/// Saturating fixed-point multiplication: the product of the two scaled
/// values, rescaled by `FX_ONE` rounding toward negative infinity.
pub open spec fn spec_fx_mul(a: i64, b: i64) -> i64 {
    spec_sat64((a * b) / (FX_ONE as int))
}

#[verifier::when_used_as_spec(spec_fx_mul)]
pub fn fx_mul(a: i64, b: i64) -> (r: i64)
    ensures
        r == spec_fx_mul(a, b),
{
    proof {
        lemma_mul_abs_bound(a as int, b as int, 0x8000_0000_0000_0000, 0x8000_0000_0000_0000);
    }
    let p: i128 = (a as i128) * (b as i128);
    sat64(div_pos(p, FX_ONE as i128))
}

/// Saturating fixed-point division. The divisor's sign is moved onto the
/// dividend, then the quotient rounds toward negative infinity.
pub open spec fn spec_fx_div(a: i64, b: i64) -> i64
    recommends
        b != 0,
{
    if b > 0 {
        spec_sat64((a * FX_ONE) / (b as int))
    } else if b < 0 {
        spec_sat64(((-a) * FX_ONE) / (-b as int))
    } else {
        0
    }
}

#[verifier::when_used_as_spec(spec_fx_div)]
pub fn fx_div(a: i64, b: i64) -> (r: i64)
    requires
        b != 0,
    ensures
        r == spec_fx_div(a, b),
{
    proof {
        lemma_mul_abs_bound(a as int, FX_ONE as int, 0x8000_0000_0000_0000, FX_ONE as int);
        lemma_mul_abs_bound(-(a as int), FX_ONE as int, 0x8000_0000_0000_0000, FX_ONE as int);
    }
    if b > 0 {
        let n: i128 = (a as i128) * (FX_ONE as i128);
        sat64(div_pos(n, b as i128))
    } else {
        let n: i128 = (-(a as i128)) * (FX_ONE as i128);
        sat64(div_pos(n, -(b as i128)))
    }
}

/// Dividing by the fixed-point one is exact for every value.
pub proof fn lemma_fx_div_one(x: i64)
    ensures
        spec_fx_div(x, FX_ONE) == x,
{
    vstd::arithmetic::div_mod::lemma_div_multiples_vanish(x as int, FX_ONE as int);
    vstd::arithmetic::mul::lemma_mul_is_commutative(x as int, FX_ONE as int);
}

/// A product bound carries through the rescaling division.
pub proof fn lemma_fx_mul_magnitude(a: i64, b: i64, k: int)
    requires
        0 <= k <= i64::MAX,
        -(k * FX_ONE) <= a * b <= k * FX_ONE,
    ensures
        -k <= spec_fx_mul(a, b) <= k,
{
    lemma_div_pos_magnitude(a as int * b, FX_ONE as int, k);
}

/// Clamping into an interval.
pub open spec fn spec_fx_clamp(v: i64, lo: i64, hi: i64) -> i64 {
    if v < lo {
        lo
    } else if v > hi {
        hi
    } else {
        v
    }
}

#[verifier::when_used_as_spec(spec_fx_clamp)]
pub fn fx_clamp(v: i64, lo: i64, hi: i64) -> (r: i64)
    ensures
        r == spec_fx_clamp(v, lo, hi),
{
    if v < lo {
        lo
    } else if v > hi {
        hi
    } else {
        v
    }
}

/// The larger of two fixed-point values.
pub open spec fn spec_fx_max(a: i64, b: i64) -> i64 {
    if a >= b {
        a
    } else {
        b
    }
}

#[verifier::when_used_as_spec(spec_fx_max)]
pub fn fx_max(a: i64, b: i64) -> (r: i64)
    ensures
        r == spec_fx_max(a, b),
{
    if a >= b {
        a
    } else {
        b
    }
}

/// The smaller of two fixed-point values.
pub open spec fn spec_fx_min(a: i64, b: i64) -> i64 {
    if a <= b {
        a
    } else {
        b
    }
}

#[verifier::when_used_as_spec(spec_fx_min)]
pub fn fx_min(a: i64, b: i64) -> (r: i64)
    ensures
        r == spec_fx_min(a, b),
{
    if a <= b {
        a
    } else {
        b
    }
}

/// Saturating absolute value.
pub open spec fn spec_fx_abs(v: i64) -> i64 {
    spec_sat64(if v < 0 {
        -v as int
    } else {
        v as int
    })
}

#[verifier::when_used_as_spec(spec_fx_abs)]
pub fn fx_abs(v: i64) -> (r: i64)
    ensures
        r == spec_fx_abs(v),
{
    if v < 0 {
        sat64(-(v as i128))
    } else {
        v
    }
}

/// Linear interpolation from `a` to `b` by a factor in `[0, FX_ONE]`,
/// exact (no saturation) because the result stays between `a` and `b`.
pub open spec fn spec_fx_lerp(a: i64, b: i64, t: i64) -> i64 {
    spec_sat64(a + ((b - a) * t) / (FX_ONE as int))
}

/// A lerp by a factor in `[0, FX_ONE]` lands between its endpoints, so the
/// saturation step never fires.
pub proof fn lemma_lerp_bounds(a: i64, b: i64, t: i64)
    requires
        0 <= t <= FX_ONE,
    ensures
        spec_fx_min(a, b) <= a + ((b - a) * t) / (FX_ONE as int) <= spec_fx_max(a, b),
        spec_fx_lerp(a, b, t) == a + ((b - a) * t) / (FX_ONE as int),
{
    let d = b - a;
    let p = d * t;
    let one = FX_ONE as int;
    if d >= 0 {
        assert(0 <= p <= d * one) by (nonlinear_arith)
            requires
                d >= 0,
                0 <= t <= one,
                p == d * t,
        ;
        lemma_div_is_ordered(0, p, one);
        lemma_div_is_ordered(p, d * one, one);
        assert(d * one / one == d) by (nonlinear_arith)
            requires
                one > 0,
        ;
    } else {
        assert(d * one <= p <= 0) by (nonlinear_arith)
            requires
                d < 0,
                0 <= t <= one,
                p == d * t,
        ;
        lemma_div_is_ordered(p, 0, one);
        lemma_div_is_ordered(d * one, p, one);
        assert(d * one / one == d) by (nonlinear_arith)
            requires
                one > 0,
        ;
    }
}

#[verifier::when_used_as_spec(spec_fx_lerp)]
pub fn fx_lerp(a: i64, b: i64, t: i64) -> (r: i64)
    requires
        0 <= t <= FX_ONE,
    ensures
        r == spec_fx_lerp(a, b, t),
        spec_fx_min(a, b) <= r <= spec_fx_max(a, b),
{
    proof {
        lemma_lerp_bounds(a, b, t);
        lemma_mul_abs_bound(b - a, t as int, 0x1_0000_0000_0000_0000, FX_ONE as int);
    }
    let d: i128 = (b as i128) - (a as i128);
    let q = div_pos(d * (t as i128), FX_ONE as i128);
    proof {
        assert(spec_fx_min(a, b) <= a + q <= spec_fx_max(a, b));
    }
    (a as i128 + q) as i64
}

/// The integer pixel at or below a fixed-point coordinate.
pub open spec fn spec_fx_floor(v: i64) -> i64 {
    (v as int / (FX_ONE as int)) as i64
}

#[verifier::when_used_as_spec(spec_fx_floor)]
pub fn fx_floor(v: i64) -> (r: i64)
    ensures
        r == spec_fx_floor(v),
        r == v as int / FX_ONE as int,
{
    div_pos(v as i128, FX_ONE as i128) as i64
}

/// The integer pixel at or above a fixed-point coordinate.
pub open spec fn spec_fx_ceil(v: i64) -> i64 {
    ((v + FX_ONE - 1) / (FX_ONE as int)) as i64
}

#[verifier::when_used_as_spec(spec_fx_ceil)]
pub fn fx_ceil(v: i64) -> (r: i64)
    ensures
        r == spec_fx_ceil(v),
        r == (v + FX_ONE - 1) as int / FX_ONE as int,
{
    proof {
        lemma_div_is_ordered(v as int + FX_ONE - 1, i64::MAX + FX_ONE - 1, FX_ONE as int);
        lemma_div_is_ordered(i64::MIN as int, v as int + FX_ONE - 1, FX_ONE as int);
    }
    div_pos(v as i128 + (FX_ONE - 1) as i128, FX_ONE as i128) as i64
}

/// The Euclidean remainder by a positive modulus, always in `[0, m)`.
pub open spec fn spec_fx_rem(v: i64, m: i64) -> i64
    recommends
        m > 0,
{
    (v as int % (m as int)) as i64
}

#[verifier::when_used_as_spec(spec_fx_rem)]
pub fn fx_rem(v: i64, m: i64) -> (r: i64)
    requires
        m > 0,
    ensures
        r == spec_fx_rem(v, m),
        0 <= r < m,
{
    rem_pos(v as i128, m as i128) as i64
}

/// The fractional part of a fixed-point value, always in `[0, FX_ONE)`.
pub open spec fn spec_fx_fract(v: i64) -> i64 {
    (v as int % (FX_ONE as int)) as i64
}

#[verifier::when_used_as_spec(spec_fx_fract)]
pub fn fx_fract(v: i64) -> (r: i64)
    ensures
        r == spec_fx_fract(v),
        0 <= r < FX_ONE,
{
    rem_pos(v as i128, FX_ONE as i128) as i64
}

/// From an integer count of pixels to the fixed-point scale, saturating.
pub open spec fn spec_fx_from_int(v: i64) -> i64 {
    spec_sat64(v * FX_ONE)
}

#[verifier::when_used_as_spec(spec_fx_from_int)]
pub fn fx_from_int(v: i64) -> (r: i64)
    ensures
        r == spec_fx_from_int(v),
{
    proof {
        lemma_mul_abs_bound(v as int, FX_ONE as int, 0x8000_0000_0000_0000, FX_ONE as int);
    }
    sat64((v as i128) * (FX_ONE as i128))
}

/// The parabolic arch `4 u (pi - u) / pi^2`, scaled by `FX_ONE` and rounded
/// to the nearest step: the renderer's periodic wave on the half turn
/// `[0, FX_PI]`. Rounding to nearest makes the arch hit exactly zero at the
/// ends and exactly `FX_ONE` at the quarter turn, so the cardinal angles
/// come out exact.
pub open spec fn spec_sin_arch(u: int) -> int {
    (4 * u * (FX_PI - u) * FX_ONE + (FX_PI as int * FX_PI as int) / 2) / (
    FX_PI as int * FX_PI as int)
}

/// On `[0, FX_PI]` the arch stays within `[0, FX_ONE]`. The key step: since
/// `FX_PI` is odd, `(2u - FX_PI)^2 >= 1`, so the unrounded numerator stays
/// at least one denominator-step below the top and the rounding cannot
/// overshoot one.
proof fn lemma_sin_arch_bounds(u: int)
    requires
        0 <= u <= FX_PI,
    ensures
        0 <= spec_sin_arch(u) <= FX_ONE,
{
    let pi = FX_PI as int;
    let one = FX_ONE as int;
    let den = pi * pi;
    let half = den / 2;
    let num = 4 * u * (pi - u) * one + half;
    assert(2 * u != pi);
    assert((2 * u - pi) * (2 * u - pi) >= 1) by (nonlinear_arith)
        requires
            2 * u != pi,
    ;
    assert(0 <= 4 * u * (pi - u) * one <= (den - 1) * one) by (nonlinear_arith)
        requires
            0 <= u <= pi,
            den == pi * pi,
            (2 * u - pi) * (2 * u - pi) >= 1,
            one > 0,
    ;
    lemma_div_pos_bounds(num, den);
    lemma_div_is_ordered(num, den * one + (den - 1), den);
    vstd::arithmetic::div_mod::lemma_div_multiples_vanish_fancy(one, den - 1, den);
}

fn sin_arch(u: i64) -> (r: i64)
    requires
        0 <= u <= FX_PI,
    ensures
        r == spec_sin_arch(u as int),
        0 <= r <= FX_ONE,
{
    proof {
        lemma_sin_arch_bounds(u as int);
        lemma_mul_abs_bound(4 * u, FX_PI - u, 4 * FX_PI as int, FX_PI as int);
        lemma_mul_abs_bound(
            4 * u * (FX_PI - u) as int,
            FX_ONE as int,
            4 * FX_PI as int * FX_PI as int,
            FX_ONE as int,
        );
    }
    let den: i128 = (FX_PI as i128) * (FX_PI as i128);
    let half = div_pos(den, 2);
    let num: i128 = 4 * (u as i128) * ((FX_PI - u) as i128) * (FX_ONE as i128) + half;
    div_pos(num, den) as i64
}

/// The renderer's periodic sine: the angle is reduced to one turn and fed to
/// the parabolic arch, negated on the second half turn. Always in
/// `[-FX_ONE, FX_ONE]`.
pub open spec fn spec_fx_sin(x: i64) -> i64 {
    let m = x as int % (FX_TAU as int);
    if m <= FX_PI {
        spec_sat64(spec_sin_arch(m))
    } else {
        spec_sat64(-spec_sin_arch(m - FX_PI))
    }
}

#[verifier::when_used_as_spec(spec_fx_sin)]
pub fn fx_sin(x: i64) -> (r: i64)
    ensures
        r == spec_fx_sin(x),
        -FX_ONE <= r <= FX_ONE,
{
    let m = rem_pos(x as i128, FX_TAU as i128) as i64;
    if m <= FX_PI {
        proof {
            lemma_sin_arch_bounds(m as int);
        }
        sin_arch(m)
    } else {
        proof {
            lemma_sin_arch_bounds(m as int - FX_PI);
        }
        -sin_arch(m - FX_PI)
    }
}

/// The renderer's periodic cosine: the sine a quarter turn ahead.
pub open spec fn spec_fx_cos(x: i64) -> i64 {
    spec_fx_sin((x as int % (FX_TAU as int) + FX_QUARTER_TAU) as i64)
}

#[verifier::when_used_as_spec(spec_fx_cos)]
pub fn fx_cos(x: i64) -> (r: i64)
    ensures
        r == spec_fx_cos(x),
        -FX_ONE <= r <= FX_ONE,
{
    let m = rem_pos(x as i128, FX_TAU as i128) as i64;
    fx_sin(m + FX_QUARTER_TAU)
}

/// At angle zero the sine is exactly zero and the cosine exactly one.
pub proof fn lemma_trig_cardinal()
    ensures
        spec_fx_sin(0) == 0,
        spec_fx_cos(0) == FX_ONE,
{
    let tau = FX_TAU as int;
    let pi = FX_PI as int;
    let one = FX_ONE as int;
    let q = FX_QUARTER_TAU as int;
    let den = pi * pi;
    assert(205887int * 205887int == 42389456769int) by (nonlinear_arith);
    assert(den == 42389456769);
    vstd::arithmetic::div_mod::lemma_fundamental_div_mod_converse(0, tau, 0, 0);
    vstd::arithmetic::div_mod::lemma_fundamental_div_mod_converse(den, 2, 21194728384, 1);
    assert(4 * 0 * (pi - 0) * one == 0) by (nonlinear_arith);
    vstd::arithmetic::div_mod::lemma_fundamental_div_mod_converse(21194728384, den, 0, 21194728384);
    assert(spec_sin_arch(0) == 0);
    assert(spec_fx_sin(0) == 0);
    vstd::arithmetic::div_mod::lemma_fundamental_div_mod_converse(q, tau, 0, q);
    assert(4int * 102944int * 102943int * 65536int == 42389456768int * 65536int) by (nonlinear_arith);
    assert(4 * q * (pi - q) * one == (den - 1) * one);
    assert(42389456768int * 65536int == 65536int * 42389456769int + (21194728384int - 65536int)
        - 21194728384int) by (nonlinear_arith);
    assert((den - 1) * one == one * den + (21194728384 - one) - 21194728384);
    vstd::arithmetic::div_mod::lemma_fundamental_div_mod_converse(
        (den - 1) * one + 21194728384,
        den,
        one,
        21194728384 - one,
    );
    assert(spec_sin_arch(q) == one);
    assert(spec_fx_cos(0) == FX_ONE);
}

/// The integer square root, defined by counting up.
pub open spec fn sqrt_floor(n: nat) -> nat
    decreases n,
{
    if n == 0 {
        0
    } else {
        let s = sqrt_floor((n - 1) as nat);
        if (s + 1) * (s + 1) <= n {
            s + 1
        } else {
            s
        }
    }
}

/// `sqrt_floor(n)` is the largest integer whose square is at most `n`.
pub proof fn lemma_sqrt_floor_props(n: nat)
    ensures
        sqrt_floor(n) * sqrt_floor(n) <= n,
        n < (sqrt_floor(n) + 1) * (sqrt_floor(n) + 1),
        sqrt_floor(n) <= n,
    decreases n,
{
    if n == 0 {
        assert(sqrt_floor(0) == 0);
        assert(n < (sqrt_floor(n) + 1) * (sqrt_floor(n) + 1)) by (nonlinear_arith)
            requires
                n == 0,
                sqrt_floor(n) == 0,
        ;
    } else {
        let s = sqrt_floor((n - 1) as nat);
        lemma_sqrt_floor_props((n - 1) as nat);
        assert(sqrt_floor(n) == if (s + 1) * (s + 1) <= n {
            s + 1
        } else {
            s
        });
        if (s + 1) * (s + 1) <= n {
            assert(sqrt_floor(n) == s + 1);
            assert(sqrt_floor(n) * sqrt_floor(n) <= n);
            assert(n < (s + 2) * (s + 2)) by (nonlinear_arith)
                requires
                    n - 1 < (s + 1) * (s + 1),
                    s >= 0,
            ;
            assert(n < (sqrt_floor(n) + 1) * (sqrt_floor(n) + 1));
        } else {
            assert(sqrt_floor(n) == s);
            assert(sqrt_floor(n) * sqrt_floor(n) <= n);
            assert(n < (sqrt_floor(n) + 1) * (sqrt_floor(n) + 1));
        }
    }
}

/// Any value squeezed between consecutive squares is the square root.
pub proof fn lemma_sqrt_floor_unique(n: nat, r: nat)
    requires
        r * r <= n,
        n < (r + 1) * (r + 1),
    ensures
        r == sqrt_floor(n),
{
    let s = sqrt_floor(n);
    lemma_sqrt_floor_props(n);
    assert(r == s) by (nonlinear_arith)
        requires
            r * r <= n < (r + 1) * (r + 1),
            s * s <= n < (s + 1) * (s + 1),
    ;
}

/// The integer square root of a wide non-negative value, by bisection.
pub fn isqrt(n: u128) -> (r: u64)
    requires
        n < 0x4000_0000_0000_0000_0000_0000_0000_0000,
    ensures
        r as nat == sqrt_floor(n as nat),
        r * r <= n,
        n < (r + 1) * (r + 1),
{
    let mut lo: u128 = 0;
    let mut hi: u128 = 0x8000_0000_0000_0000;
    proof {
        assert(n < hi * hi) by (nonlinear_arith)
            requires
                n < 0x4000_0000_0000_0000_0000_0000_0000_0000,
                hi == 0x8000_0000_0000_0000,
        ;
    }
    while lo + 1 < hi
        invariant
            lo < hi <= 0x8000_0000_0000_0000,
            lo * lo <= n,
            n < hi * hi,
        decreases hi - lo,
    {
        let mid = lo + (hi - lo) / 2;
        proof {
            assert(lo < mid < hi);
            assert(mid * mid < 0x8000_0000_0000_0000 * 0x8000_0000_0000_0000)
                by (nonlinear_arith)
                requires
                    0 <= mid < 0x8000_0000_0000_0000,
            ;
        }
        if mid * mid <= n {
            lo = mid;
        } else {
            hi = mid;
        }
    }
    proof {
        assert(n < (lo + 1) * (lo + 1));
        lemma_sqrt_floor_unique(n as nat, lo as nat);
    }
    lo as u64
}

} // verus!
