//! Colours and appearances.

use vstd::prelude::*;

verus! {

/// A colour with its opacity, one byte for each channel.
#[derive(Clone, Copy, Debug, PartialEq, Eq, Structural)]
pub struct RgbaHexColor {
    pub r: u8,
    pub g: u8,
    pub b: u8,
    pub a: u8,
}

/// Light or dark appearance.
#[derive(Clone, Copy, Debug, PartialEq, Eq, Structural)]
pub enum ColorTheme {
    Light,
    Dark,
}

impl ColorTheme {
    /// The number that the system's settings hold for this appearance: 1 for
    /// light, 0 for dark.
    pub open spec fn spec_flag(self) -> u32 {
        match self {
            ColorTheme::Light => 1u32,
            ColorTheme::Dark => 0u32,
        }
    }

    /// The number that the system's settings hold for this appearance.
    pub fn flag(self) -> (r: u32)
        ensures
            r == self.spec_flag(),
    {
        match self {
            ColorTheme::Light => 1u32,
            ColorTheme::Dark => 0u32,
        }
    }
}

} // verus!
