//! How lines are coloured, and colours as plain values.

use vstd::prelude::*;

verus! {

/// How each connecting line is coloured.
#[derive(Clone, Copy, Debug, PartialEq, Eq, Structural)]
pub enum ColorMode {
    /// Every line in the configured line colour.
    Monochrome,
    /// Each line coloured by its chord length.
    Length,
    /// Each line coloured by its position round the circle.
    Radial,
}

/// The mode that follows `mode` when the user cycles through the modes.
pub open spec fn next_mode_of(mode: ColorMode) -> ColorMode {
    match mode {
        ColorMode::Monochrome => ColorMode::Length,
        ColorMode::Length => ColorMode::Radial,
        ColorMode::Radial => ColorMode::Monochrome,
    }
}

impl ColorMode {
    /// The next mode in the cycle Monochrome, Length, Radial, Monochrome.
    pub fn next(self) -> (r: ColorMode)
        ensures
            r == next_mode_of(self),
    {
        match self {
            ColorMode::Monochrome => ColorMode::Length,
            ColorMode::Length => ColorMode::Radial,
            ColorMode::Radial => ColorMode::Monochrome,
        }
    }

    /// The label shown for the mode.
    pub fn label(self) -> (r: &'static str)
        ensures
            self == ColorMode::Monochrome ==> r@ == "Monochrome"@,
            self == ColorMode::Length ==> r@ == "Length"@,
            self == ColorMode::Radial ==> r@ == "Radial"@,
    {
        match self {
            ColorMode::Monochrome => "Monochrome",
            ColorMode::Length => "Length",
            ColorMode::Radial => "Radial",
        }
    }

    /// Whether the configured line colour is used, and so worth editing.
    pub fn uses_line_color(self) -> (r: bool)
        ensures
            r == (self == ColorMode::Monochrome),
    {
        match self {
            ColorMode::Monochrome => true,
            _ => false,
        }
    }
}

/// A colour as red, green, blue and alpha bytes, the first three
/// premultiplied by alpha.
#[derive(Clone, Copy, Debug, PartialEq, Eq, Structural)]
pub struct Rgba {
    pub r: u8,
    pub g: u8,
    pub b: u8,
    pub a: u8,
}

impl Rgba {
    /// An opaque colour.
    pub fn opaque(r: u8, g: u8, b: u8) -> (c: Rgba)
        ensures
            c == (Rgba { r, g, b, a: 255 }),
    {
        Rgba { r, g, b, a: 255 }
    }
}

} // verus!
