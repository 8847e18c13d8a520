//! The color palette and the interpolatable color representation.
//!
//! Palette colors are given as 8-bit RGBA. For animation they are widened
//! to [`TweenableColor`], whose channels are held in thousandths of an
//! 8-bit unit (0 to 255_000), so that interpolation between palette
//! colors stays exact integer arithmetic.

use vstd::prelude::*;

verus! {

/// Scale factor between an 8-bit color channel and a tweenable channel.
pub const CHANNEL_SCALE: u32 = 1000;

/// Largest value a tweenable channel can hold: 255 in thousandths.
pub const CHANNEL_MAX: u32 = 255_000;

/// The named colors the game draws with.
#[derive(Copy, Clone, Debug, PartialEq, Eq, Structural)]
pub enum ColorPalette {
    Bg,
    Bg1,
    Bg2,
    Fg,
    Fg0,
    Fg4,
    Blue,
    BrightYellow,
    Orange,
    TransparentBg,
}

impl ColorPalette {
    /// The 8-bit RGBA value of each palette entry.
    pub open spec fn spec_rgba(self) -> (u8, u8, u8, u8) {
        match self {
            ColorPalette::Bg => (40, 40, 40, 255),
            ColorPalette::Bg1 => (60, 56, 54, 255),
            ColorPalette::Bg2 => (80, 73, 69, 255),
            ColorPalette::Fg0 => (251, 241, 199, 255),
            ColorPalette::Fg => (235, 219, 178, 255),
            ColorPalette::Fg4 => (168, 153, 132, 255),
            ColorPalette::Blue => (69, 133, 136, 255),
            ColorPalette::BrightYellow => (250, 189, 47, 255),
            ColorPalette::Orange => (214, 93, 14, 255),
            ColorPalette::TransparentBg => (29, 32, 33, 200),
        }
    }

    pub fn as_rgba(self) -> (c: (u8, u8, u8, u8))
        ensures
            c == self.spec_rgba(),
    {
        match self {
            ColorPalette::Bg => (40, 40, 40, 255),
            ColorPalette::Bg1 => (60, 56, 54, 255),
            ColorPalette::Bg2 => (80, 73, 69, 255),
            ColorPalette::Fg0 => (251, 241, 199, 255),
            ColorPalette::Fg => (235, 219, 178, 255),
            ColorPalette::Fg4 => (168, 153, 132, 255),
            ColorPalette::Blue => (69, 133, 136, 255),
            ColorPalette::BrightYellow => (250, 189, 47, 255),
            ColorPalette::Orange => (214, 93, 14, 255),
            ColorPalette::TransparentBg => (29, 32, 33, 200),
        }
    }

    /// The palette entry widened to tweenable channels.
    pub open spec fn spec_tweenable(self) -> TweenableColor {
        TweenableColor {
            r: (self.spec_rgba().0 * CHANNEL_SCALE) as u32,
            g: (self.spec_rgba().1 * CHANNEL_SCALE) as u32,
            b: (self.spec_rgba().2 * CHANNEL_SCALE) as u32,
            a: (self.spec_rgba().3 * CHANNEL_SCALE) as u32,
        }
    }

    pub fn to_tweenable(self) -> (t: TweenableColor)
        ensures
            t == self.spec_tweenable(),
            t.wf(),
    {
        let (r, g, b, a) = self.as_rgba();
        TweenableColor {
            r: r as u32 * CHANNEL_SCALE,
            g: g as u32 * CHANNEL_SCALE,
            b: b as u32 * CHANNEL_SCALE,
            a: a as u32 * CHANNEL_SCALE,
        }
    }
}

/// A color whose channels can be interpolated: each channel holds
/// thousandths of an 8-bit unit, 0 to [`CHANNEL_MAX`].
#[derive(Copy, Clone, Debug, PartialEq, Eq, Structural)]
pub struct TweenableColor {
    pub r: u32,
    pub g: u32,
    pub b: u32,
    pub a: u32,
}

impl TweenableColor {
    /// Every channel within the representable color range.
    pub open spec fn wf(self) -> bool {
        self.r <= CHANNEL_MAX && self.g <= CHANNEL_MAX && self.b <= CHANNEL_MAX
            && self.a <= CHANNEL_MAX
    }
}

} // verus!
