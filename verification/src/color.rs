use vstd::prelude::*;

verus! {

/// An RGBA color with 8-bit channels, attached to every generated vertex.
#[derive(Clone, Copy, PartialEq, Eq, Structural, Debug)]
pub struct Rgba {
    pub r: u8,
    pub g: u8,
    pub b: u8,
    pub a: u8,
}

impl Rgba {
    /// Opaque red, used for the x axis line of the grid mesh.
    pub fn red() -> (c: Rgba)
        ensures
            c == (Rgba { r: 255, g: 0, b: 0, a: 255 }),
    {
        Rgba { r: 255, g: 0, b: 0, a: 255 }
    }

    /// Opaque green, used for the y axis line of the grid mesh.
    pub fn green() -> (c: Rgba)
        ensures
            c == (Rgba { r: 0, g: 255, b: 0, a: 255 }),
    {
        Rgba { r: 0, g: 255, b: 0, a: 255 }
    }

    /// Opaque blue, used for the z axis line of the grid mesh.
    pub fn blue() -> (c: Rgba)
        ensures
            c == (Rgba { r: 0, g: 0, b: 255, a: 255 }),
    {
        Rgba { r: 0, g: 0, b: 255, a: 255 }
    }

    /// Opaque white, used for the interior grid lines.
    pub fn white() -> (c: Rgba)
        ensures
            c == (Rgba { r: 255, g: 255, b: 255, a: 255 }),
    {
        Rgba { r: 255, g: 255, b: 255, a: 255 }
    }

    /// Translucent red, the color of the hover cursor and of the live
    /// drag-rectangle preview.
    pub fn half_alpha_red() -> (c: Rgba)
        ensures
            c == (Rgba { r: 255, g: 0, b: 0, a: 51 }),
    {
        Rgba { r: 255, g: 0, b: 0, a: 51 }
    }
}

} // verus!
