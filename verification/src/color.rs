//! A packed three-channel color and the channel arithmetic the renderer
//! needs: linear interpolation, intensity scaling with a clamp, and the
//! saturating addition used by emission compositing.

use vstd::prelude::*;

verus! {

/// An 8-bit-per-channel RGB color.
#[derive(Clone, Copy, PartialEq, Eq, Structural, Debug)]
pub struct Color {
    pub r: u8,
    pub g: u8,
    pub b: u8,
}

/// One channel of `a` moved toward `b` by the factor `t` in milli-units
/// (`t == 1000` reaches `b`); the fractional part is dropped.
pub open spec fn spec_lerp_channel(a: int, b: int, t: int) -> int {
    if b >= a {
        a + (b - a) * t / 1000
    } else {
        a - (a - b) * t / 1000
    }
}

/// One channel scaled by a milli-unit factor, clamped to 255.
pub open spec fn spec_scale_channel(a: int, f: int) -> int {
    if a * f / 1000 > 255 {
        255
    } else {
        a * f / 1000
    }
}

/// Saturating channel addition: the sum, capped at 255.
pub open spec fn spec_sat_add_channel(a: int, b: int) -> int {
    if a + b > 255 {
        255
    } else {
        a + b
    }
}

/// The 0xRRGGBB packing of three channels.
pub open spec fn spec_pack(r: int, g: int, b: int) -> int {
    r * 0x10000 + g * 0x100 + b
}

impl Color {
    pub fn new(r: u8, g: u8, b: u8) -> (c: Color)
        ensures
            c.r == r && c.g == g && c.b == b,
    {
        Color { r, g, b }
    }

    /// This color moved toward `other` by the factor `t` in milli-units.
    pub fn lerp(&self, other: &Color, t: i64) -> (c: Color)
        requires
            0 <= t <= 1000,
        ensures
            c.r == spec_lerp_channel(self.r as int, other.r as int, t as int),
            c.g == spec_lerp_channel(self.g as int, other.g as int, t as int),
            c.b == spec_lerp_channel(self.b as int, other.b as int, t as int),
    {
        Color {
            r: lerp_channel(self.r, other.r, t),
            g: lerp_channel(self.g, other.g, t),
            b: lerp_channel(self.b, other.b, t),
        }
    }

    /// Every channel scaled by the milli-unit factor `f`, clamped to 255.
    pub fn scale(&self, f: i64) -> (c: Color)
        requires
            0 <= f <= 10000,
        ensures
            c.r == spec_scale_channel(self.r as int, f as int),
            c.g == spec_scale_channel(self.g as int, f as int),
            c.b == spec_scale_channel(self.b as int, f as int),
    {
        Color {
            r: scale_channel(self.r, f),
            g: scale_channel(self.g, f),
            b: scale_channel(self.b, f),
        }
    }

    /// The 0xRRGGBB packed form.
    pub fn to_packed(&self) -> (p: u32)
        ensures
            p == spec_pack(self.r as int, self.g as int, self.b as int),
    {
        (self.r as u32) * 0x10000 + (self.g as u32) * 0x100 + (self.b as u32)
    }

    /// The color stored in a 0xRRGGBB packed value.
    pub fn from_packed(p: u32) -> (c: Color)
        ensures
            c.r == (p / 0x10000) % 0x100,
            c.g == (p / 0x100) % 0x100,
            c.b == p % 0x100,
    {
        Color {
            r: ((p / 0x10000) % 0x100) as u8,
            g: ((p / 0x100) % 0x100) as u8,
            b: (p % 0x100) as u8,
        }
    }
}

fn lerp_channel(a: u8, b: u8, t: i64) -> (c: u8)
    requires
        0 <= t <= 1000,
    ensures
        c == spec_lerp_channel(a as int, b as int, t as int),
{
    if b >= a {
        let d: u64 = (b - a) as u64;
        proof {
            assert(d * t <= d * 1000 <= 255000) by (nonlinear_arith)
                requires 0 <= t <= 1000, 0 <= d <= 255;
            assert(d * t / 1000 <= d) by (nonlinear_arith)
                requires 0 <= t <= 1000, 0 <= d;
        }
        let step: u64 = d * (t as u64) / 1000;
        a + (step as u8)
    } else {
        let d: u64 = (a - b) as u64;
        proof {
            assert(d * t <= d * 1000 <= 255000) by (nonlinear_arith)
                requires 0 <= t <= 1000, 0 <= d <= 255;
            assert(d * t / 1000 <= d) by (nonlinear_arith)
                requires 0 <= t <= 1000, 0 <= d;
        }
        let step: u64 = d * (t as u64) / 1000;
        a - (step as u8)
    }
}

fn scale_channel(a: u8, f: i64) -> (c: u8)
    requires
        0 <= f <= 10000,
    ensures
        c == spec_scale_channel(a as int, f as int),
{
    proof {
        assert(a * f <= 2550000) by (nonlinear_arith)
            requires 0 <= a <= 255, 0 <= f <= 10000;
    }
    let scaled: u64 = (a as u64) * (f as u64) / 1000;
    if scaled > 255 {
        255
    } else {
        scaled as u8
    }
}

/// Saturating per-channel addition of two colors.
pub fn sat_add(a: &Color, b: &Color) -> (c: Color)
    ensures
        c.r == spec_sat_add_channel(a.r as int, b.r as int),
        c.g == spec_sat_add_channel(a.g as int, b.g as int),
        c.b == spec_sat_add_channel(a.b as int, b.b as int),
{
    let r: u32 = a.r as u32 + b.r as u32;
    let g: u32 = a.g as u32 + b.g as u32;
    let bl: u32 = a.b as u32 + b.b as u32;
    Color {
        r: if r > 255 { 255 } else { r as u8 },
        g: if g > 255 { 255 } else { g as u8 },
        b: if bl > 255 { 255 } else { bl as u8 },
    }
}

} // verus!
