//! Colors with three 8-bit channels, mixed by wraparound addition.

use vstd::prelude::*;

verus! {

/// A color with three 8-bit channels.
#[derive(PartialEq, Eq, Structural, Debug, Clone, Copy)]
pub struct Color {
    pub r: u8,
    pub g: u8,
    pub b: u8,
}

impl Color {
    pub fn new(r: u8, g: u8, b: u8) -> (c: Color)
        ensures
            c == (Color { r, g, b }),
    {
        Color { r, g, b }
    }

    pub fn new_red() -> (c: Color)
        ensures
            c == (Color { r: 255u8, g: 0u8, b: 0u8 }),
    {
        Color::new(255, 0, 0)
    }

    pub fn new_green() -> (c: Color)
        ensures
            c == (Color { r: 0u8, g: 255u8, b: 0u8 }),
    {
        Color::new(0, 255, 0)
    }

    pub fn new_blue() -> (c: Color)
        ensures
            c == (Color { r: 0u8, g: 0u8, b: 255u8 }),
    {
        Color::new(0, 0, 255)
    }

    /// Mixes two colors: each channel is the sum of the parents' channels,
    /// modulo 256 (wraparound, not saturation).
    pub fn cross(c1: &Color, c2: &Color) -> (c: Color)
        ensures
            c.r as int == (c1.r as int + c2.r as int) % 256,
            c.g as int == (c1.g as int + c2.g as int) % 256,
            c.b as int == (c1.b as int + c2.b as int) % 256,
    {
        Color::new(
            Self::safe_add(&c1.r, &c2.r),
            Self::safe_add(&c1.g, &c2.g),
            Self::safe_add(&c1.b, &c2.b),
        )
    }

    /// Adds two channel values with wraparound at 256.
    pub fn safe_add(x: &u8, y: &u8) -> (r: u8)
        ensures
            r as int == (*x as int + *y as int) % 256,
    {
        let sum: u16 = (*x as u16) + (*y as u16);
        (sum % 256) as u8
    }
}

} // verus!
