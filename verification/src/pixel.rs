//! Pixel colors and alpha-composition modes for the software rasterizer.

use vstd::prelude::*;

verus! {

/// How colors written by the rasterizer combine with what is already on the
/// draw target.
#[derive(Debug, Copy, Clone, PartialEq, Eq, Structural)]
pub enum AlphaMode {
    /// The new color replaces the old one unconditionally.
    Normal,
    /// The new color replaces the old one only when it is fully opaque.
    Mask,
    /// The new color is mixed with the old one according to its alpha.
    Blend,
}

/// Which channel interpretation a color value uses.
#[derive(Debug, Copy, Clone, PartialEq, Eq, Structural)]
pub enum ColorMode {
    /// Red, Green, Blue, and Alpha
    Rgb,
    /// Hue, Saturation, Brightness, and Alpha
    Hsb,
    /// Hue, Saturation, Lightness, and Alpha
    Hsl,
}

/// An RGBA color with one byte per channel.
#[derive(Debug, Copy, Clone, PartialEq, Eq, Structural)]
pub struct Pixel {
    /// Red channel.
    pub r: u8,
    /// Green channel.
    pub g: u8,
    /// Blue channel.
    pub b: u8,
    /// Alpha channel; `255` is fully opaque.
    pub a: u8,
}

/// One channel of `over` mixed onto `under`, where `weight` out of `scale`
/// parts come from `over`.
pub open spec fn spec_mix_channel(over: u8, under: u8, weight: int, scale: int) -> int {
    (weight * over + (scale - weight) * under) / scale
}

/// The color that alpha-blending `p` onto `under` produces, with the blend
/// weight `p.a * factor` out of `255 * 255`; the result is opaque.
pub open spec fn spec_blend(p: Pixel, under: Pixel, factor: u8) -> Pixel {
    let w = p.a * factor;
    Pixel {
        r: spec_mix_channel(p.r, under.r, w, 65025) as u8,
        g: spec_mix_channel(p.g, under.g, w, 65025) as u8,
        b: spec_mix_channel(p.b, under.b, w, 65025) as u8,
        a: 255,
    }
}

/// `over` laid onto `under` at an opacity of `percent` per cent; the result
/// is opaque.
pub open spec fn spec_overlay(over: Pixel, under: Pixel, percent: int) -> Pixel {
    Pixel {
        r: spec_mix_channel(over.r, under.r, percent, 100) as u8,
        g: spec_mix_channel(over.g, under.g, percent, 100) as u8,
        b: spec_mix_channel(over.b, under.b, percent, 100) as u8,
        a: 255,
    }
}

/// One channel of `over` mixed onto `under` with weight `w` out of `scale`.
fn mix_channel(over: u8, under: u8, w: u32, scale: u32) -> (r: u8)
    requires
        0 < scale <= 65025,
        w <= scale,
    ensures
        r as int == spec_mix_channel(over, under, w as int, scale as int),
        spec_mix_channel(over, under, w as int, scale as int) <= 255,
{
    proof {
        assert(w * over + (scale - w) * under <= scale * 255) by (nonlinear_arith)
            requires
                over <= 255,
                under <= 255,
                0 < scale <= 65025,
                w <= scale,
        ;
    }
    let num: u64 = w as u64 * over as u64 + (scale - w) as u64 * under as u64;
    proof {
        assert(num / (scale as u64) <= 255) by (nonlinear_arith)
            requires
                num <= scale * 255,
                scale > 0,
        ;
    }
    (num / scale as u64) as u8
}

impl Pixel {
    /// Constructs an opaque color from red, green and blue channels.
    pub fn rgb(r: u8, g: u8, b: u8) -> (p: Pixel)
        ensures
            p == (Pixel { r, g, b, a: 255 }),
    {
        Pixel { r, g, b, a: 255 }
    }

    /// Constructs a color from red, green, blue and alpha channels.
    pub fn rgba(r: u8, g: u8, b: u8, a: u8) -> (p: Pixel)
        ensures
            p == (Pixel { r, g, b, a }),
    {
        Pixel { r, g, b, a }
    }

    /// The channels as `[r, g, b, a]`.
    pub fn channels(&self) -> (c: [u8; 4])
        ensures
            c@ == seq![self.r, self.g, self.b, self.a],
    {
        let c = [self.r, self.g, self.b, self.a];
        proof {
            assert(c@ =~= seq![self.r, self.g, self.b, self.a]);
        }
        c
    }

    /// Alpha-blends `self` onto `under`: `self.a * factor` out of
    /// `255 * 255` parts of each channel come from `self`, the rest from
    /// `under`.
    pub fn blend_onto(&self, under: Pixel, factor: u8) -> (p: Pixel)
        ensures
            p == spec_blend(*self, under, factor),
    {
        proof {
            assert(self.a * factor <= 65025) by (nonlinear_arith)
                requires
                    self.a <= 255,
                    factor <= 255,
            ;
        }
        let w: u32 = self.a as u32 * factor as u32;
        let r = mix_channel(self.r, under.r, w, 65025);
        let g = mix_channel(self.g, under.g, w, 65025);
        let b = mix_channel(self.b, under.b, w, 65025);
        Pixel { r, g, b, a: 255 }
    }

    /// Lays `self` onto `under` at an opacity of `percent` per cent.
    pub fn blended(&self, under: Pixel, percent: u8) -> (p: Pixel)
        requires
            percent <= 100,
        ensures
            p == spec_overlay(*self, under, percent as int),
    {
        let r = mix_channel(self.r, under.r, percent as u32, 100);
        let g = mix_channel(self.g, under.g, percent as u32, 100);
        let b = mix_channel(self.b, under.b, percent as u32, 100);
        Pixel { r, g, b, a: 255 }
    }

    /// An iterator-like cursor over the four channels.
    pub fn iter(&self) -> (it: Iter)
        ensures
            it.inner@ == seq![self.r, self.g, self.b, self.a],
            it.current == 0,
    {
        Iter { inner: self.channels(), current: 0 }
    }
}

/// The transparent black color, the default content of a fresh sprite.
pub open spec fn spec_transparent() -> Pixel {
    Pixel { r: 0, g: 0, b: 0, a: 0 }
}

impl Default for Pixel {
    /// The default color: transparent black.
    fn default() -> (p: Pixel)
        ensures
            p == spec_transparent(),
    {
        Pixel { r: 0, g: 0, b: 0, a: 0 }
    }
}

/// A cursor over the `[r, g, b, a]` channels of a [`Pixel`], created by
/// [`Pixel::iter`].
#[derive(Debug, Clone)]
pub struct Iter {
    /// The channels being walked.
    pub inner: [u8; 4],
    /// The next channel to hand out.
    pub current: usize,
}

impl Iter {
    /// Hands out the next channel, or `None` once all four are spent.
    pub fn next(&mut self) -> (n: Option<u8>)
        ensures
            old(self).current > 3 ==> n is None && *final(self) == *old(self),
            old(self).current <= 3 ==> {
                &&& n == Some(old(self).inner@[old(self).current as int])
                &&& final(self).current == old(self).current + 1
                &&& final(self).inner == old(self).inner
            },
    {
        if self.current > 3 {
            return None;
        }
        let next = self.inner[self.current];
        self.current = self.current + 1;
        Some(next)
    }
}

} // verus!
