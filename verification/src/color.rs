//! Radiance / reflectance triples and the gamma-corrected 8-bit mapping.

use vstd::prelude::*;

use crate::fixed::{fx_wf, Fx};

verus! {

/// Raw value of the display clamp's upper bound, just under 1.
pub const CLAMP_MAX_RAW: i64 = 65470;

/// Raw value of 255.999 (the floor of 255.999 times the scale), the
/// quantization factor of the 8-bit mapping.
pub const QUANT_RAW: i64 = 16777150;

#[derive(Clone, Copy, Debug, PartialEq, Eq, Structural)]
pub struct Color {
    pub r: Fx,
    pub g: Fx,
    pub b: Fx,
}

pub open spec fn color_wf(c: Color) -> bool {
    fx_wf(c.r) && fx_wf(c.g) && fx_wf(c.b)
}

/// Every channel inside the displayable band `[0, CLAMP_MAX_RAW]`.
pub open spec fn color_clamped(c: Color) -> bool {
    0 <= c.r.raw <= CLAMP_MAX_RAW && 0 <= c.g.raw <= CLAMP_MAX_RAW && 0 <= c.b.raw
        <= CLAMP_MAX_RAW
}

impl Color {
    pub fn new(r: Fx, g: Fx, b: Fx) -> (c: Color)
        ensures
            c == (Color { r, g, b }),
    {
        Color { r, g, b }
    }

    pub open spec fn spec_black() -> Color {
        Color { r: Fx { raw: 0 }, g: Fx { raw: 0 }, b: Fx { raw: 0 } }
    }

    pub fn black() -> (c: Color)
        ensures
            c == Color::spec_black(),
            color_wf(c),
            color_clamped(c),
    {
        Color { r: Fx { raw: 0 }, g: Fx { raw: 0 }, b: Fx { raw: 0 } }
    }

    pub open spec fn spec_add(c1: Color, c2: Color) -> Color {
        Color {
            r: c1.r.spec_add(c2.r),
            g: c1.g.spec_add(c2.g),
            b: c1.b.spec_add(c2.b),
        }
    }

    /// Channelwise sum.
    pub fn add(c1: &Color, c2: &Color) -> (c: Color)
        requires
            color_wf(*c1),
            color_wf(*c2),
        ensures
            c == Color::spec_add(*c1, *c2),
            color_wf(c),
    {
        Color { r: c1.r.add(c2.r), g: c1.g.add(c2.g), b: c1.b.add(c2.b) }
    }

    pub open spec fn spec_scale(c: Color, s: Fx) -> Color {
        Color {
            r: c.r.spec_mul(s),
            g: c.g.spec_mul(s),
            b: c.b.spec_mul(s),
        }
    }

    /// Every channel multiplied by `s`.
    pub fn scale(c: &Color, s: Fx) -> (r: Color)
        requires
            color_wf(*c),
            fx_wf(s),
        ensures
            r == Color::spec_scale(*c, s),
            color_wf(r),
    {
        Color { r: c.r.mul(s), g: c.g.mul(s), b: c.b.mul(s) }
    }

    pub open spec fn spec_mul(c1: Color, c2: Color) -> Color {
        Color {
            r: c1.r.spec_mul(c2.r),
            g: c1.g.spec_mul(c2.g),
            b: c1.b.spec_mul(c2.b),
        }
    }

    /// Channelwise product: the attenuation a scattering event applies.
    pub fn mul(c1: &Color, c2: &Color) -> (c: Color)
        requires
            color_wf(*c1),
            color_wf(*c2),
        ensures
            c == Color::spec_mul(*c1, *c2),
            color_wf(c),
    {
        Color { r: c1.r.mul(c2.r), g: c1.g.mul(c2.g), b: c1.b.mul(c2.b) }
    }

    pub fn copy(&self) -> (c: Color)
        ensures
            c == *self,
    {
        Color { r: self.r, g: self.g, b: self.b }
    }

    pub open spec fn spec_clamp(c: Color) -> Color {
        Color {
            r: c.r.spec_max(Fx { raw: 0 }).spec_min(Fx { raw: CLAMP_MAX_RAW }),
            g: c.g.spec_max(Fx { raw: 0 }).spec_min(Fx { raw: CLAMP_MAX_RAW }),
            b: c.b.spec_max(Fx { raw: 0 }).spec_min(Fx { raw: CLAMP_MAX_RAW }),
        }
    }

    /// Clamp every channel into the displayable band.
    pub fn clamp(&mut self)
        ensures
            *final(self) == Color::spec_clamp(*old(self)),
            color_clamped(*final(self)),
            color_wf(*final(self)),
    {
        self.r = self.r.max(Fx { raw: 0 }).min(Fx { raw: CLAMP_MAX_RAW });
        self.g = self.g.max(Fx { raw: 0 }).min(Fx { raw: CLAMP_MAX_RAW });
        self.b = self.b.max(Fx { raw: 0 }).min(Fx { raw: CLAMP_MAX_RAW });
    }

    /// The 8-bit display value of one clamped channel:
    /// `floor(sqrt(v) * 255.999)`, capped at 255.
    pub open spec fn spec_quantize(v: Fx) -> int {
        let q = v.spec_sqrt().spec_mul(Fx { raw: QUANT_RAW });
        let b = q.raw / 65536;
        if b > 255 { 255 } else { b }
    }

    fn quantize(v: Fx) -> (r: u8)
        requires
            fx_wf(v),
            v.raw >= 0,
        ensures
            r as int == Color::spec_quantize(v),
    {
        let s = v.sqrt();
        let q = s.mul(Fx { raw: QUANT_RAW });
        proof {
            assert(s.raw as int * (QUANT_RAW as int) >= 0) by (nonlinear_arith)
                requires
                    (s.raw as int) >= 0,
                    (QUANT_RAW as int) > 0;
        }
        let b = (q.raw as u64) / 65536u64;
        if b > 255 { 255u8 } else { b as u8 }
    }

    /// The three 8-bit display channels, square-root gamma applied.
    pub fn to_rgb8(&self) -> (r: (u8, u8, u8))
        requires
            color_wf(*self),
            color_clamped(*self),
        ensures
            r.0 as int == Color::spec_quantize(self.r),
            r.1 as int == Color::spec_quantize(self.g),
            r.2 as int == Color::spec_quantize(self.b),
    {
        (Color::quantize(self.r), Color::quantize(self.g), Color::quantize(self.b))
    }
}

} // verus!
