//! Color values as the layout kernel carries them: plain 8-bit channels
//! with an opacity in thousandths.  Color math and CSS emission live with
//! the rendering collaborator; the kernel only stores and hands colors
//! through.

use vstd::prelude::*;

verus! {

/// An RGB color with an opacity in per-mille (0 = transparent,
/// 1000 = opaque).
#[derive(Debug, Clone, Copy, PartialEq, Eq, Structural)]
pub struct Rgba {
    pub r: u8,
    pub g: u8,
    pub b: u8,
    pub alpha_mille: u16,
}

impl Rgba {
    pub fn new(r: u8, g: u8, b: u8, alpha_mille: u16) -> (c: Self)
        ensures
            c == (Rgba { r, g, b, alpha_mille }),
    {
        Rgba { r, g, b, alpha_mille }
    }

    pub fn black() -> (c: Self)
        ensures
            c == (Rgba { r: 0, g: 0, b: 0, alpha_mille: 1000u16 }),
    {
        Rgba { r: 0, g: 0, b: 0, alpha_mille: 1000 }
    }

    pub fn gray_25() -> (c: Self)
        ensures
            c == (Rgba { r: 192, g: 192, b: 192, alpha_mille: 1000u16 }),
    {
        Rgba { r: 192, g: 192, b: 192, alpha_mille: 1000 }
    }

    pub fn gray_33() -> (c: Self)
        ensures
            c == (Rgba { r: 172, g: 172, b: 172, alpha_mille: 1000u16 }),
    {
        Rgba { r: 172, g: 172, b: 172, alpha_mille: 1000 }
    }

    pub fn gray_50() -> (c: Self)
        ensures
            c == (Rgba { r: 128, g: 128, b: 128, alpha_mille: 1000u16 }),
    {
        Rgba { r: 128, g: 128, b: 128, alpha_mille: 1000 }
    }

    pub fn gray_63() -> (c: Self)
        ensures
            c == (Rgba { r: 96, g: 96, b: 96, alpha_mille: 1000u16 }),
    {
        Rgba { r: 96, g: 96, b: 96, alpha_mille: 1000 }
    }

    pub fn white() -> (c: Self)
        ensures
            c == (Rgba { r: 255, g: 255, b: 255, alpha_mille: 1000u16 }),
    {
        Rgba { r: 255, g: 255, b: 255, alpha_mille: 1000 }
    }

    /// Replaces the opacity, capped at fully opaque.
    pub fn alpha(self, alpha_mille: u16) -> (c: Self)
        ensures
            c == (Rgba {
                alpha_mille: if alpha_mille <= 1000 {
                    alpha_mille
                } else {
                    1000u16
                },
                ..self
            }),
    {
        Rgba {
            alpha_mille: if alpha_mille <= 1000 {
                alpha_mille
            } else {
                1000
            },
            ..self
        }
    }
}

} // verus!
