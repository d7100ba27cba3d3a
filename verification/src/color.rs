//! Colours as the terminal takes them: one byte each of red, green and blue.

use vstd::prelude::*;

verus! {

/// An RGB triple. Two colours are equal when their three channels are.
#[derive(Clone, Copy, Debug, PartialEq, Eq, Structural)]
pub struct Color {
    pub r: u8,
    pub g: u8,
    pub b: u8,
}

impl Color {
    /// The colour with the given channels.
    pub fn from_rgb(r: u8, g: u8, b: u8) -> (c: Self)
        ensures
            c == (Color { r, g, b }),
    {
        Self { r, g, b }
    }

    /// The background a stream starts from, and returns to on a reset.
    pub open spec fn black() -> Color {
        Color { r: 0, g: 0, b: 0 }
    }
}

} // verus!
