//! Immutable RGB colors with 8-bit channels: linear interpolation, additive
//! blending, scaling by a fixed-point factor, and packing to `0xRRGGBB`.

use crate::fixed::{lemma_lerp_bounds, spec_fx_clamp, spec_fx_lerp, FX_ONE};
use vstd::prelude::*;

verus! {

/// An RGB color; an immutable value type.
#[derive(Clone, Copy, PartialEq, Eq, Structural, Debug)]
pub struct Color {
    pub r: u8,
    pub g: u8,
    pub b: u8,
}

/// One channel of a linear interpolation: the factor is clamped to
/// `[0, FX_ONE]`, then the channel moves proportionally toward the target.
pub open spec fn spec_lerp_channel(a: u8, b: u8, t: i64) -> u8 {
    spec_fx_lerp(a as i64, b as i64, spec_fx_clamp(t, 0, FX_ONE)) as u8
}

fn lerp_channel(a: u8, b: u8, t: i64) -> (r: u8)
    ensures
        r == spec_lerp_channel(a, b, t),
{
    let tc = crate::fixed::fx_clamp(t, 0, FX_ONE);
    let v = crate::fixed::fx_lerp(a as i64, b as i64, tc);
    proof {
        lemma_lerp_bounds(a as i64, b as i64, tc);
    }
    v as u8
}

/// One channel scaled by a non-negative fixed-point factor, clamped to the
/// channel range.
pub open spec fn spec_scale_channel(c: u8, f: i64) -> u8 {
    spec_fx_clamp(((c as i64 * f) / (FX_ONE as int)) as i64, 0, 255) as u8
}

fn scale_channel(c: u8, f: i64) -> (r: u8)
    ensures
        r == spec_scale_channel(c, f),
{
    proof {
        crate::fixed::lemma_mul_abs_bound(c as int, f as int, 255, 0x8000_0000_0000_0000);
        crate::fixed::lemma_div_pos_magnitude(
            c as int * f,
            FX_ONE as int,
            0x80_0000_0000_0000,
        );
    }
    let wide: i128 = (c as i128) * (f as i128);
    let q = crate::fixed::div_pos(wide, FX_ONE as i128) as i64;
    let v = crate::fixed::fx_clamp(q, 0, 255);
    v as u8
}

/// One channel of the additive blend: the sum, saturated at white.
pub open spec fn spec_add_channel(a: u8, b: u8) -> u8 {
    if a + b > 255 {
        255
    } else {
        (a + b) as u8
    }
}

fn add_channel(a: u8, b: u8) -> (r: u8)
    ensures
        r == spec_add_channel(a, b),
{
    let s = a as u16 + b as u16;
    if s > 255 {
        255
    } else {
        s as u8
    }
}

impl Color {
    /// A color from its three channels.
    pub fn new(r: u8, g: u8, b: u8) -> (c: Color)
        ensures
            c == (Color { r, g, b }),
    {
        Color { r, g, b }
    }

    /// The packed `0xRRGGBB` form of this color.
    pub open spec fn spec_to_hex(self) -> u32 {
        ((self.r as int) * 0x10000 + (self.g as int) * 0x100 + (self.b as int)) as u32
    }

    /// Packs the channels into `0xRRGGBB`.
    pub fn to_hex(&self) -> (h: u32)
        ensures
            h == self.spec_to_hex(),
    {
        (self.r as u32) * 0x10000 + (self.g as u32) * 0x100 + (self.b as u32)
    }

    /// The color whose packed form is the low 24 bits of `h`.
    pub open spec fn spec_from_hex(h: u32) -> Color {
        Color {
            r: ((h / 0x10000) % 0x100) as u8,
            g: ((h / 0x100) % 0x100) as u8,
            b: (h % 0x100) as u8,
        }
    }

    /// Unpacks the low 24 bits of `h` into channels.
    pub fn from_hex(h: u32) -> (c: Color)
        ensures
            c == Self::spec_from_hex(h),
    {
        Color {
            r: ((h / 0x10000) % 0x100) as u8,
            g: ((h / 0x100) % 0x100) as u8,
            b: (h % 0x100) as u8,
        }
    }

    /// A color from three fixed-point channel values in `[0, FX_ONE]`:
    /// each is scaled to the 8-bit range and clamped.
    pub open spec fn spec_from_fx(r: i64, g: i64, b: i64) -> Color {
        Color {
            r: spec_fx_clamp(((r * 255) / (FX_ONE as int)) as i64, 0, 255) as u8,
            g: spec_fx_clamp(((g * 255) / (FX_ONE as int)) as i64, 0, 255) as u8,
            b: spec_fx_clamp(((b * 255) / (FX_ONE as int)) as i64, 0, 255) as u8,
        }
    }

    pub fn from_fx(r: i64, g: i64, b: i64) -> (c: Color)
        ensures
            c == Self::spec_from_fx(r, g, b),
    {
        Color { r: from_fx_channel(r), g: from_fx_channel(g), b: from_fx_channel(b) }
    }

    /// The linear interpolation of two colors by a fixed-point factor,
    /// channel by channel; the factor is clamped to `[0, FX_ONE]`.
    pub open spec fn spec_lerp(self, other: Color, t: i64) -> Color {
        Color {
            r: spec_lerp_channel(self.r, other.r, t),
            g: spec_lerp_channel(self.g, other.g, t),
            b: spec_lerp_channel(self.b, other.b, t),
        }
    }

    pub fn lerp(&self, other: &Color, t: i64) -> (c: Color)
        ensures
            c == self.spec_lerp(*other, t),
    {
        Color {
            r: lerp_channel(self.r, other.r, t),
            g: lerp_channel(self.g, other.g, t),
            b: lerp_channel(self.b, other.b, t),
        }
    }

    /// The color scaled by a fixed-point factor, channel by channel,
    /// clamped to the channel range.
    pub open spec fn spec_scale(self, f: i64) -> Color {
        Color {
            r: spec_scale_channel(self.r, f),
            g: spec_scale_channel(self.g, f),
            b: spec_scale_channel(self.b, f),
        }
    }

    pub fn scale(&self, f: i64) -> (c: Color)
        ensures
            c == self.spec_scale(f),
    {
        Color {
            r: scale_channel(self.r, f),
            g: scale_channel(self.g, f),
            b: scale_channel(self.b, f),
        }
    }

    /// The additive blend of two colors, saturated at white.
    pub open spec fn spec_blend_add(self, other: Color) -> Color {
        Color {
            r: spec_add_channel(self.r, other.r),
            g: spec_add_channel(self.g, other.g),
            b: spec_add_channel(self.b, other.b),
        }
    }

    pub fn blend_add(&self, other: &Color) -> (c: Color)
        ensures
            c == self.spec_blend_add(*other),
    {
        Color {
            r: add_channel(self.r, other.r),
            g: add_channel(self.g, other.g),
            b: add_channel(self.b, other.b),
        }
    }
}

fn from_fx_channel(v: i64) -> (r: u8)
    ensures
        r == spec_fx_clamp(((v * 255) / (FX_ONE as int)) as i64, 0, 255) as u8,
{
    proof {
        crate::fixed::lemma_mul_abs_bound(v as int, 255, 0x8000_0000_0000_0000, 255);
        crate::fixed::lemma_div_pos_magnitude(
            v as int * 255,
            FX_ONE as int,
            0x80_0000_0000_0000,
        );
    }
    let wide: i128 = (v as i128) * 255;
    let q = crate::fixed::div_pos(wide, FX_ONE as i128) as i64;
    crate::fixed::fx_clamp(q, 0, 255) as u8
}

/// Packing and unpacking are inverse to one another.
pub proof fn lemma_hex_round_trip(c: Color)
    ensures
        Color::spec_from_hex(c.spec_to_hex()) == c,
{
    let h = c.spec_to_hex();
    assert(((h / 0x10000) % 0x100) == c.r && ((h / 0x100) % 0x100) == c.g && (h % 0x100) == c.b)
        by (nonlinear_arith)
        requires
            h == (c.r as u32) * 0x10000 + (c.g as u32) * 0x100 + (c.b as u32),
            c.r < 0x100,
            c.g < 0x100,
            c.b < 0x100,
    ;
}

} // verus!
