//! The color value a color picker carries: red, green, blue and alpha, each
//! an 8-bit channel.

use vstd::prelude::*;

verus! {

/// A color with 8-bit red, green, blue and alpha channels.
#[derive(Clone, Copy, Debug, PartialEq, Eq, Structural)]
pub struct Rgba {
    /// Red channel.
    pub r: u8,
    /// Green channel.
    pub g: u8,
    /// Blue channel.
    pub b: u8,
    /// Alpha channel; 255 is fully opaque.
    pub a: u8,
}

impl Rgba {
    /// Builds a color from its four channels.
    pub fn new(r: u8, g: u8, b: u8, a: u8) -> (c: Rgba)
        ensures
            c == (Rgba { r, g, b, a }),
    {
        Rgba { r, g, b, a }
    }

    /// Builds an opaque color from its three color channels.
    pub fn from_rgb(r: u8, g: u8, b: u8) -> (c: Rgba)
        ensures
            c == (Rgba { r, g, b, a: 255 }),
    {
        Rgba { r, g, b, a: 255 }
    }
}

/// The muted red a color picker's state returns to when it is reset.
pub open spec fn spec_reset_color() -> Rgba {
    Rgba { r: 128, g: 64, b: 64, a: 255 }
}

/// Returns the color a reset color picker shows.
pub fn reset_color() -> (c: Rgba)
    ensures
        c == spec_reset_color(),
{
    Rgba { r: 128, g: 64, b: 64, a: 255 }
}

} // verus!
