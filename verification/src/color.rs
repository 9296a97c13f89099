//! Colors and strokes.
//!
//! [`Color32`] is a 32-bit sRGBA color with premultiplied alpha, stored as
//! four gamma-space bytes. All color arithmetic used by the theme (scaling a
//! color's opacity, tinting a color towards another) happens in gamma space
//! through the `ecolor` crate.

use vstd::prelude::*;

verus! {

/// A 32-bit sRGBA color with premultiplied alpha, in gamma space.
///
/// An `alpha` of 0 means the color is additive; the fully transparent color
/// is the one whose four bytes are all zero.
#[derive(Clone, Copy, Debug, PartialEq, Eq, Structural, Hash)]
pub struct Color32 {
    pub r: u8,
    pub g: u8,
    pub b: u8,
    pub a: u8,
}

impl Color32 {
    /// True for the fully transparent color (all four bytes zero).
    pub open spec fn is_transparent(self) -> bool {
        self.r == 0 && self.g == 0 && self.b == 0 && self.a == 0
    }

    /// The fully transparent color.
    #[verifier::allow_in_spec]
    pub fn transparent() -> Color32
        returns
            (Color32 { r: 0, g: 0, b: 0, a: 0 }),
    {
        Color32 { r: 0, g: 0, b: 0, a: 0 }
    }

    /// Opaque white.
    #[verifier::allow_in_spec]
    pub fn white() -> Color32
        returns
            (Color32 { r: 255, g: 255, b: 255, a: 255 }),
    {
        Color32 { r: 255, g: 255, b: 255, a: 255 }
    }

    /// Opaque black.
    #[verifier::allow_in_spec]
    pub fn black() -> Color32
        returns
            (Color32 { r: 0, g: 0, b: 0, a: 255 }),
    {
        Color32 { r: 0, g: 0, b: 0, a: 255 }
    }

    /// An opaque color from red, green and blue.
    #[verifier::allow_in_spec]
    pub fn from_rgb(r: u8, g: u8, b: u8) -> Color32
        returns
            (Color32 { r, g, b, a: 255 }),
    {
        Color32 { r, g, b, a: 255 }
    }

    /// An opaque gray of the given luminance.
    #[verifier::allow_in_spec]
    pub fn from_gray(l: u8) -> Color32
        returns
            (Color32 { r: l, g: l, b: l, a: 255 }),
    {
        Color32 { r: l, g: l, b: l, a: 255 }
    }

    /// Black with the given opacity.
    #[verifier::allow_in_spec]
    pub fn from_black_alpha(a: u8) -> Color32
        returns
            (Color32 { r: 0, g: 0, b: 0, a }),
    {
        Color32 { r: 0, g: 0, b: 0, a }
    }

    /// An additive color (alpha 0) of the given luminance: blending it in
    /// only brightens what is behind it.
    #[verifier::allow_in_spec]
    pub fn from_additive_luminance(l: u8) -> Color32
        returns
            (Color32 { r: l, g: l, b: l, a: 0 }),
    {
        Color32 { r: l, g: l, b: l, a: 0 }
    }

    /// An sRGBA color from four premultiplied bytes.
    #[verifier::allow_in_spec]
    pub fn from_rgba_premultiplied(r: u8, g: u8, b: u8, a: u8) -> Color32
        returns
            (Color32 { r, g, b, a }),
    {
        Color32 { r, g, b, a }
    }
}

/// One gamma-space channel scaled by `factor / 255`, rounded to nearest.
pub open spec fn gamma_scaled_channel(v: u8, factor: u8) -> u8 {
    (((v as int) * (factor as int) + 127) / 255) as u8
}

/// A color with every channel (alpha included) scaled by `factor / 255` in
/// gamma space.
pub open spec fn gamma_scaled(c: Color32, factor: u8) -> Color32 {
    Color32 {
        r: gamma_scaled_channel(c.r, factor),
        g: gamma_scaled_channel(c.g, factor),
        b: gamma_scaled_channel(c.b, factor),
        a: gamma_scaled_channel(c.a, factor),
    }
}

/// The result of tinting `c` halfway towards `target` in gamma space: each
/// color channel of `c` is halved and a share of `target` is added, the share
/// shrinking with `c`'s transparency; an additive color (alpha 0) is only
/// dimmed.
pub open spec fn tinted_towards(c: Color32, target: Color32) -> Color32 {
    if c.a == 0 {
        Color32 { r: (c.r / 2) as u8, g: (c.g / 2) as u8, b: (c.b / 2) as u8, a: 0 }
    } else if c.a < 170 {
        let div = (510 as int / c.a as int) % 256;
        Color32 {
            r: (c.r as int / 2 + target.r as int / div) as u8,
            g: (c.g as int / 2 + target.g as int / div) as u8,
            b: (c.b as int / 2 + target.b as int / div) as u8,
            a: (c.a / 2) as u8,
        }
    } else {
        Color32 {
            r: (c.r as int / 2 + target.r as int / 2) as u8,
            g: (c.g as int / 2 + target.g as int / 2) as u8,
            b: (c.b as int / 2 + target.b as int / 2) as u8,
            a: c.a,
        }
    }
}

/// Relies on `ecolor::Color32::gamma_multiply_u8`: each of the four bytes is
/// scaled as `(v * factor + 127) / 255`.
#[verifier::external_body]
pub(crate) fn gamma_multiply_u8(c: Color32, factor: u8) -> (r: Color32)
    ensures
        r == gamma_scaled(c, factor),
{
    let e = ecolor::Color32::from_rgba_premultiplied(c.r, c.g, c.b, c.a).gamma_multiply_u8(factor);
    let [r, g, b, a] = e.to_array();
    Color32 { r, g, b, a }
}

/// Relies on `ecolor::tint_color_towards`: halves each channel of `color`
/// and adds a share of `target` that depends on `color`'s alpha.
#[verifier::external_body]
pub(crate) fn tint_color_towards(color: Color32, target: Color32) -> (r: Color32)
    ensures
        r == tinted_towards(color, target),
{
    let c = ecolor::Color32::from_rgba_premultiplied(color.r, color.g, color.b, color.a);
    let t = ecolor::Color32::from_rgba_premultiplied(target.r, target.g, target.b, target.a);
    let [r, g, b, a] = ecolor::tint_color_towards(c, t).to_array();
    Color32 { r, g, b, a }
}

/// A line stroke: a width in centipoints and a color.
#[derive(Clone, Copy, Debug, PartialEq, Eq, Structural, Hash)]
pub struct Stroke {
    /// Stroke width in hundredths of a point.
    pub width: u32,
    pub color: Color32,
}

impl Stroke {
    #[verifier::allow_in_spec]
    pub fn new(width: u32, color: Color32) -> Stroke
        returns
            (Stroke { width, color }),
    {
        Stroke { width, color }
    }
}

impl Default for Stroke {
    /// The stroke that paints nothing: zero width, fully transparent.
    fn default() -> (s: Stroke)
        ensures
            (s == Stroke { width: 0, color: Color32 { r: 0, g: 0, b: 0, a: 0 } }),
    {
        Stroke { width: 0, color: Color32 { r: 0, g: 0, b: 0, a: 0 } }
    }
}

/// A box shadow: an offset and a spread in whole points, a blur radius,
/// and a color.
#[derive(Clone, Copy, Debug, PartialEq, Eq, Structural, Hash)]
pub struct Shadow {
    /// Horizontal offset of the shadow, in whole points.
    pub offset_x: i8,
    /// Vertical offset of the shadow, in whole points.
    pub offset_y: i8,
    /// Blur radius, in whole points.
    pub blur: u8,
    /// How much larger than the casting rectangle the shadow is, in whole
    /// points.
    pub spread: u8,
    pub color: Color32,
}

impl Shadow {
    #[verifier::allow_in_spec]
    pub fn new(offset_x: i8, offset_y: i8, blur: u8, spread: u8, color: Color32) -> Shadow
        returns
            (Shadow { offset_x, offset_y, blur, spread, color }),
    {
        Shadow { offset_x, offset_y, blur, spread, color }
    }
}

} // verus!
