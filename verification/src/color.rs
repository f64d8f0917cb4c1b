use vstd::prelude::*;

verus! {

/// A color in RGBA form.
///
/// Each channel is an 8-bit intensity: `0` stands for the bottom and `255`
/// for the top of the renderer's `[0, 1]` color scale. The GPU-facing layer
/// divides by `255` when it builds its floating-point vertex records, so the
/// named constants below are the pure colors.
#[derive(Clone, Copy, Debug, PartialEq, Eq, Structural)]
pub struct Color {
    /// Red channel.
    pub r: u8,
    /// Green channel.
    pub g: u8,
    /// Blue channel.
    pub b: u8,
    /// Alpha channel; `255` is fully opaque.
    pub a: u8,
}

impl Color {
    /// Pure black, fully opaque.
    pub fn black() -> (c: Color)
        ensures
            c == (Color { r: 0u8, g: 0u8, b: 0u8, a: 255u8 }),
    {
        Color { r: 0, g: 0, b: 0, a: 255 }
    }

    /// Pure red, fully opaque.
    pub fn red() -> (c: Color)
        ensures
            c == (Color { r: 255u8, g: 0u8, b: 0u8, a: 255u8 }),
    {
        Color { r: 255, g: 0, b: 0, a: 255 }
    }

    /// Pure green, fully opaque.
    pub fn green() -> (c: Color)
        ensures
            c == (Color { r: 0u8, g: 255u8, b: 0u8, a: 255u8 }),
    {
        Color { r: 0, g: 255, b: 0, a: 255 }
    }

    /// Pure blue, fully opaque.
    pub fn blue() -> (c: Color)
        ensures
            c == (Color { r: 0u8, g: 0u8, b: 255u8, a: 255u8 }),
    {
        Color { r: 0, g: 0, b: 255, a: 255 }
    }

    /// Pure yellow, fully opaque.
    pub fn yellow() -> (c: Color)
        ensures
            c == (Color { r: 255u8, g: 255u8, b: 0u8, a: 255u8 }),
    {
        Color { r: 255, g: 255, b: 0, a: 255 }
    }

    /// Pure magenta, fully opaque.
    pub fn magenta() -> (c: Color)
        ensures
            c == (Color { r: 255u8, g: 0u8, b: 255u8, a: 255u8 }),
    {
        Color { r: 255, g: 0, b: 255, a: 255 }
    }

    /// Pure cyan, fully opaque.
    pub fn cyan() -> (c: Color)
        ensures
            c == (Color { r: 0u8, g: 255u8, b: 255u8, a: 255u8 }),
    {
        Color { r: 0, g: 255, b: 255, a: 255 }
    }

    /// Pure white, fully opaque.
    pub fn white() -> (c: Color)
        ensures
            c == (Color { r: 255u8, g: 255u8, b: 255u8, a: 255u8 }),
    {
        Color { r: 255, g: 255, b: 255, a: 255 }
    }

    /// Builds a fully opaque color from its red, green and blue channels.
    pub fn rgb(r: u8, g: u8, b: u8) -> (c: Color)
        ensures
            c == (Color { r, g, b, a: 255u8 }),
    {
        Color { r, g, b, a: 255 }
    }

    /// Builds a color from all four channels.
    pub fn rgba(r: u8, g: u8, b: u8, a: u8) -> (c: Color)
        ensures
            c == (Color { r, g, b, a }),
    {
        Color { r, g, b, a }
    }
}

} // verus!
