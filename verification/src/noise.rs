//! The seeded coherent-noise field sampled by the procedural shaders.
//!
//! The field is fractal value noise: a hash of the seed and a lattice cell
//! gives each corner a value in `[-FX_ONE, FX_ONE]`, corners are blended by
//! a smoothstep fade, and several octaves are summed with rising frequency
//! and falling amplitude, then normalized by the total amplitude. The whole
//! computation is integer arithmetic, so a sample is a pure function of the
//! seed, the parameters and the coordinates.

use crate::fixed::{
    fx_add, fx_clamp, fx_div, fx_floor, fx_fract, fx_lerp, fx_mul, lemma_div_pos_magnitude,
    lemma_mul_abs_bound, spec_fx_add, spec_fx_clamp, spec_fx_div, spec_fx_floor, spec_fx_fract,
    spec_fx_lerp, spec_fx_mul, FX_HALF, FX_ONE,
};
use vstd::arithmetic::mul::lemma_mul_is_commutative;
use vstd::prelude::*;

verus! {

/// Coordinates are clamped to this range before they pick a lattice cell.
pub const NOISE_COORD_LIMIT: i64 = 0x100_0000_0000;

/// A seeded fractal noise field with its sampling parameters; the fractal
/// parameters are fixed-point values.
#[derive(Clone, Copy, PartialEq, Eq, Structural, Debug)]
pub struct NoiseField {
    pub seed: u64,
    pub octaves: u32,
    pub lacunarity: i64,
    pub gain: i64,
    pub frequency: i64,
}

impl NoiseField {
    /// The parameter ranges under which a sample is provably normalized.
    pub open spec fn wf(self) -> bool {
        &&& 1 <= self.octaves <= 12
        &&& 0 <= self.gain <= FX_ONE
        &&& 0 <= self.lacunarity
        &&& 0 <= self.frequency
    }

    /// A field with default fractal parameters, as a plain seeded source
    /// of coherent noise.
    pub fn with_seed(seed: u64) -> (f: NoiseField)
        ensures
            f == (NoiseField {
                seed,
                octaves: 3u32,
                lacunarity: (2 * FX_ONE) as i64,
                gain: FX_HALF,
                frequency: 655i64,
            }),
            f.wf(),
    {
        NoiseField { seed, octaves: 3, lacunarity: 2 * FX_ONE, gain: FX_HALF, frequency: 655 }
    }

    /// The sun material's noise: low frequency, six octaves.
    pub fn sun() -> (f: NoiseField)
        ensures
            f == (NoiseField {
                seed: 42u64,
                octaves: 6u32,
                lacunarity: (2 * FX_ONE) as i64,
                gain: FX_HALF,
                frequency: 131i64,
            }),
            f.wf(),
    {
        NoiseField { seed: 42, octaves: 6, lacunarity: 2 * FX_ONE, gain: FX_HALF, frequency: 131 }
    }

    /// The mars material's noise: a little coarser than the sun's.
    pub fn mars() -> (f: NoiseField)
        ensures
            f == (NoiseField {
                seed: 5678u64,
                octaves: 6u32,
                lacunarity: (2 * FX_ONE) as i64,
                gain: FX_HALF,
                frequency: 328i64,
            }),
            f.wf(),
    {
        NoiseField { seed: 5678, octaves: 6, lacunarity: 2 * FX_ONE, gain: FX_HALF, frequency: 328 }
    }

    /// One fractal 3D sample; see `spec_noise_3d`.
    pub fn get_noise_3d(&self, x: i64, y: i64, z: i64) -> (r: i64)
        requires
            self.wf(),
        ensures
            r == spec_noise_3d(*self, x, y, z),
            -FX_ONE <= r <= FX_ONE,
    {
        let mut freq: i64 = self.frequency;
        let mut amp: i64 = FX_ONE;
        let mut total: i64 = 0;
        let mut amp_sum: i64 = 0;
        let mut o: u32 = 0;
        while o < self.octaves
            invariant
                self.wf(),
                o <= self.octaves,
                (freq, amp, total, amp_sum) == spec_fbm_state(*self, x, y, z, o as int),
                0 <= amp <= FX_ONE,
                0 <= amp_sum <= o * FX_ONE,
                -amp_sum <= total <= amp_sum,
                o >= 1 ==> amp_sum >= FX_ONE,
            decreases self.octaves - o,
        {
            let s = value_noise_3d(
                self.seed ^ (o as u64),
                fx_mul(x, freq),
                fx_mul(y, freq),
                fx_mul(z, freq),
            );
            proof {
                lemma_fx_mul_within(s, amp);
                lemma_fx_mul_within(self.gain, amp);
                assert(spec_fbm_state(*self, x, y, z, o as int + 1) == {
                    let (fr, am, to, su) = spec_fbm_state(*self, x, y, z, o as int);
                    let sm = spec_value_noise(
                        self.seed ^ (o as u64),
                        spec_fx_mul(x, fr),
                        spec_fx_mul(y, fr),
                        spec_fx_mul(z, fr),
                    );
                    (
                        spec_fx_mul(fr, self.lacunarity),
                        spec_fx_mul(am, self.gain),
                        spec_fx_add(to, spec_fx_mul(sm, am)),
                        spec_fx_add(su, am),
                    )
                });
            }
            total = fx_add(total, fx_mul(s, amp));
            amp_sum = fx_add(amp_sum, amp);
            freq = fx_mul(freq, self.lacunarity);
            amp = fx_mul(amp, self.gain);
            o = o + 1;
        }
        proof {
            lemma_mul_abs_bound(total as int, FX_ONE as int, amp_sum as int, FX_ONE as int);
            lemma_mul_is_commutative(amp_sum as int, FX_ONE as int);
            lemma_div_pos_magnitude(total as int * FX_ONE, amp_sum as int, FX_ONE as int);
        }
        fx_div(total, amp_sum)
    }

    /// One fractal 2D sample: the 3D field on its zero plane.
    pub fn get_noise_2d(&self, x: i64, y: i64) -> (r: i64)
        requires
            self.wf(),
        ensures
            r == spec_noise_2d(*self, x, y),
            -FX_ONE <= r <= FX_ONE,
    {
        self.get_noise_3d(x, y, 0)
    }
}

/// The normalized fractal sum: the accumulated octaves divided by the
/// accumulated amplitude.
pub open spec fn spec_noise_3d(f: NoiseField, x: i64, y: i64, z: i64) -> i64 {
    let (freq, amp, total, amp_sum) = spec_fbm_state(f, x, y, z, f.octaves as int);
    if amp_sum > 0 {
        spec_fx_div(total, amp_sum)
    } else {
        0
    }
}

pub open spec fn spec_noise_2d(f: NoiseField, x: i64, y: i64) -> i64 {
    spec_noise_3d(f, x, y, 0)
}

/// The running state of the fractal sum after `o` octaves:
/// `(frequency, amplitude, total, amplitude sum)`.
pub open spec fn spec_fbm_state(f: NoiseField, x: i64, y: i64, z: i64, o: int) -> (
    i64,
    i64,
    i64,
    i64,
)
    decreases o,
{
    if o <= 0 {
        (f.frequency, FX_ONE, 0i64, 0i64)
    } else {
        let (fr, am, to, su) = spec_fbm_state(f, x, y, z, o - 1);
        let s = spec_value_noise(
            f.seed ^ ((o - 1) as u64),
            spec_fx_mul(x, fr),
            spec_fx_mul(y, fr),
            spec_fx_mul(z, fr),
        );
        (
            spec_fx_mul(fr, f.lacunarity),
            spec_fx_mul(am, f.gain),
            spec_fx_add(to, spec_fx_mul(s, am)),
            spec_fx_add(su, am),
        )
    }
}

/// Scaling a value in `[-FX_ONE, FX_ONE]` by a non-negative amplitude stays
/// within that amplitude.
proof fn lemma_fx_mul_within(s: i64, a: i64)
    requires
        -FX_ONE <= s <= FX_ONE,
        0 <= a,
    ensures
        -a <= spec_fx_mul(s, a) <= a,
        -a <= spec_fx_mul(a, s) <= a,
{
    lemma_mul_abs_bound(s as int, a as int, FX_ONE as int, a as int);
    lemma_mul_is_commutative(s as int, a as int);
    lemma_mul_is_commutative(FX_ONE as int, a as int);
    lemma_div_pos_magnitude(s as int * a, FX_ONE as int, a as int);
}

/// A lattice coordinate shifted into the unsigned range, for hashing.
pub open spec fn spec_lattice_u64(c: i64) -> u64 {
    (c + 0x8000_0000_0000_0000) as u64
}

fn lattice_u64(c: i64) -> (r: u64)
    ensures
        r == spec_lattice_u64(c),
{
    ((c as i128) + 0x8000_0000_0000_0000) as u64
}

/// Multiplication of hashes modulo `2^64`.
pub open spec fn spec_mulmod64(a: u64, b: u64) -> u64 {
    ((a * b) % 0x1_0000_0000_0000_0000) as u64
}

fn mulmod64(a: u64, b: u64) -> (r: u64)
    ensures
        r == spec_mulmod64(a, b),
{
    proof {
        lemma_mul_abs_bound(
            a as int,
            b as int,
            0xFFFF_FFFF_FFFF_FFFF,
            0xFFFF_FFFF_FFFF_FFFF,
        );
    }
    (((a as u128) * (b as u128)) % 0x1_0000_0000_0000_0000) as u64
}

/// A 64-bit finalizing mix: xor-shifts around two modular multiplications.
pub open spec fn spec_mix64(v: u64) -> u64 {
    let a = v ^ (v >> 33);
    let b = spec_mulmod64(a, 0xFF51_AFD7_ED55_8CCD);
    let c = b ^ (b >> 33);
    let d = spec_mulmod64(c, 0xC4CE_B9FE_1A85_EC53);
    d ^ (d >> 33)
}

fn mix64(v: u64) -> (r: u64)
    ensures
        r == spec_mix64(v),
{
    let a = v ^ (v >> 33);
    let b = mulmod64(a, 0xFF51_AFD7_ED55_8CCD);
    let c = b ^ (b >> 33);
    let d = mulmod64(c, 0xC4CE_B9FE_1A85_EC53);
    d ^ (d >> 33)
}

/// The pseudorandom corner value of a lattice cell, in `[-FX_ONE, FX_ONE]`.
pub open spec fn spec_corner(seed: u64, xi: i64, yi: i64, zi: i64) -> i64 {
    let h = spec_mix64(
        spec_mix64(spec_mix64(seed ^ spec_lattice_u64(xi)) ^ spec_lattice_u64(yi))
            ^ spec_lattice_u64(zi),
    );
    (((h % 131073) - FX_ONE) as i64)
}

fn corner(seed: u64, xi: i64, yi: i64, zi: i64) -> (r: i64)
    ensures
        r == spec_corner(seed, xi, yi, zi),
        -FX_ONE <= r <= FX_ONE,
{
    let h = mix64(mix64(mix64(seed ^ lattice_u64(xi)) ^ lattice_u64(yi)) ^ lattice_u64(zi));
    ((h % 131073) as i64) - FX_ONE
}

/// The smoothstep fade `3 t^2 - 2 t^3` over the unit interval.
pub open spec fn spec_fade(t: i64) -> i64
    recommends
        0 <= t <= FX_ONE,
{
    ((t * t * (3 * FX_ONE - 2 * t)) / (FX_ONE as int * FX_ONE as int)) as i64
}

/// On the unit interval the fade stays within it.
proof fn lemma_fade_bounds(t: i64)
    requires
        0 <= t <= FX_ONE,
    ensures
        0 <= (t * t * (3 * FX_ONE - 2 * t)) / (FX_ONE as int * FX_ONE as int) <= FX_ONE,
        spec_fade(t) == (t * t * (3 * FX_ONE - 2 * t)) / (FX_ONE as int * FX_ONE as int),
{
    let one = FX_ONE as int;
    let num = t * t * (3 * one - 2 * t);
    assert(0 <= num <= one * one * one) by (nonlinear_arith)
        requires
            0 <= t <= one,
            num == t * t * (3 * one - 2 * t),
    ;
    crate::fixed::lemma_div_pos_bounds(num, one * one);
    lemma_div_pos_magnitude(num, one * one, one);
}

fn fade(t: i64) -> (r: i64)
    requires
        0 <= t <= FX_ONE,
    ensures
        r == spec_fade(t),
        0 <= r <= FX_ONE,
{
    proof {
        lemma_fade_bounds(t);
        lemma_mul_abs_bound(t as int, t as int, FX_ONE as int, FX_ONE as int);
        lemma_mul_abs_bound(
            t as int * t as int,
            3 * FX_ONE - 2 * t as int,
            FX_ONE as int * FX_ONE as int,
            3 * FX_ONE as int,
        );
    }
    let tt: i128 = (t as i128) * (t as i128);
    let num: i128 = tt * ((3 * FX_ONE - 2 * t) as i128);
    crate::fixed::div_pos(num, (FX_ONE as i128) * (FX_ONE as i128)) as i64
}

/// One sample of the base value noise: the coordinates are clamped, their
/// lattice cell's eight corners are hashed, and the corner values are
/// blended by the faded fractional parts.
pub open spec fn spec_value_noise(seed: u64, x: i64, y: i64, z: i64) -> i64 {
    let xc = spec_fx_clamp(x, (-NOISE_COORD_LIMIT) as i64, NOISE_COORD_LIMIT);
    let yc = spec_fx_clamp(y, (-NOISE_COORD_LIMIT) as i64, NOISE_COORD_LIMIT);
    let zc = spec_fx_clamp(z, (-NOISE_COORD_LIMIT) as i64, NOISE_COORD_LIMIT);
    let x0 = spec_fx_floor(xc);
    let y0 = spec_fx_floor(yc);
    let z0 = spec_fx_floor(zc);
    let fx = spec_fade(spec_fx_fract(xc));
    let fy = spec_fade(spec_fx_fract(yc));
    let fz = spec_fade(spec_fx_fract(zc));
    let x00 = spec_fx_lerp(
        spec_corner(seed, x0, y0, z0),
        spec_corner(seed, (x0 + 1) as i64, y0, z0),
        fx,
    );
    let x10 = spec_fx_lerp(
        spec_corner(seed, x0, (y0 + 1) as i64, z0),
        spec_corner(seed, (x0 + 1) as i64, (y0 + 1) as i64, z0),
        fx,
    );
    let x01 = spec_fx_lerp(
        spec_corner(seed, x0, y0, (z0 + 1) as i64),
        spec_corner(seed, (x0 + 1) as i64, y0, (z0 + 1) as i64),
        fx,
    );
    let x11 = spec_fx_lerp(
        spec_corner(seed, x0, (y0 + 1) as i64, (z0 + 1) as i64),
        spec_corner(seed, (x0 + 1) as i64, (y0 + 1) as i64, (z0 + 1) as i64),
        fx,
    );
    let y0v = spec_fx_lerp(x00, x10, fy);
    let y1v = spec_fx_lerp(x01, x11, fy);
    spec_fx_lerp(y0v, y1v, fz)
}

fn value_noise_3d(seed: u64, x: i64, y: i64, z: i64) -> (r: i64)
    ensures
        r == spec_value_noise(seed, x, y, z),
        -FX_ONE <= r <= FX_ONE,
{
    let xc = fx_clamp(x, -NOISE_COORD_LIMIT, NOISE_COORD_LIMIT);
    let yc = fx_clamp(y, -NOISE_COORD_LIMIT, NOISE_COORD_LIMIT);
    let zc = fx_clamp(z, -NOISE_COORD_LIMIT, NOISE_COORD_LIMIT);
    let x0 = fx_floor(xc);
    let y0 = fx_floor(yc);
    let z0 = fx_floor(zc);
    proof {
        crate::fixed::lemma_div_pos_bounds(xc as int, FX_ONE as int);
        crate::fixed::lemma_div_pos_bounds(yc as int, FX_ONE as int);
        crate::fixed::lemma_div_pos_bounds(zc as int, FX_ONE as int);
    }
    let fxv = fade(fx_fract(xc));
    let fyv = fade(fx_fract(yc));
    let fzv = fade(fx_fract(zc));
    let x00 = fx_lerp(corner(seed, x0, y0, z0), corner(seed, x0 + 1, y0, z0), fxv);
    let x10 = fx_lerp(corner(seed, x0, y0 + 1, z0), corner(seed, x0 + 1, y0 + 1, z0), fxv);
    let x01 = fx_lerp(corner(seed, x0, y0, z0 + 1), corner(seed, x0 + 1, y0, z0 + 1), fxv);
    let x11 = fx_lerp(corner(seed, x0, y0 + 1, z0 + 1), corner(seed, x0 + 1, y0 + 1, z0 + 1), fxv);
    let y0v = fx_lerp(x00, x10, fyv);
    let y1v = fx_lerp(x01, x11, fyv);
    fx_lerp(y0v, y1v, fzv)
}

/// Sampling is deterministic: equal fields and equal coordinates give equal
/// samples, in any two calls.
pub proof fn lemma_noise_deterministic(f1: NoiseField, f2: NoiseField, x: i64, y: i64, z: i64)
    requires
        f1 == f2,
    ensures
        spec_noise_3d(f1, x, y, z) == spec_noise_3d(f2, x, y, z),
{
}

} // verus!
