//! Colours as plain values: an RGBA quadruple of bytes, and the names of the
//! colours of the shared UI palette.
use vstd::prelude::*;

verus! {

/// An opaque-by-default 8-bit RGBA colour.
#[derive(Clone, Copy, Debug, PartialEq, Eq, Structural)]
pub struct Rgba8 {
    pub r: u8,
    pub g: u8,
    pub b: u8,
    pub a: u8,
}

impl Rgba8 {
    /// The opaque colour with the given red, green and blue parts.
    pub fn from_rgb(r: u8, g: u8, b: u8) -> (c: Rgba8)
        ensures
            c == (Rgba8 { r: r, g: g, b: b, a: 255 }),
    {
        Rgba8 { r, g, b, a: 255 }
    }

    /// The opaque grey with all three parts equal to `l`.
    pub fn from_gray(l: u8) -> (c: Rgba8)
        ensures
            c == (Rgba8 { r: l, g: l, b: l, a: 255 }),
    {
        Rgba8 { r: l, g: l, b: l, a: 255 }
    }
}

/// A named colour of the shared UI palette; the panels pick one of these and
/// the renderer maps it to its RGBA value.
#[derive(Clone, Copy, Debug, PartialEq, Eq, Structural)]
pub enum PaletteColor {
    Good,
    Warn,
    Bad,
    Info,
    Gold,
    GoldHot,
    Muted,
    BrassBright,
    ColdAtomic,
    IdeoFascism,
}

} // verus!
