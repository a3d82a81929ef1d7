//! The four named colors of the older embed style.
use vstd::prelude::*;
use crate::colors::{rgb_value, colour_from_rgb};

verus! {

#[derive(Debug, Clone, Copy, PartialEq, Eq, Structural)]
pub enum Color {
    Primary,
    Error,
    Success,
    Warning,
}

impl Color {
    pub open spec fn spec_rgb(self) -> (u8, u8, u8) {
        match self {
            Color::Primary => (47, 49, 54),
            Color::Error => (140, 16, 31),
            Color::Success => (20, 160, 51),
            Color::Warning => (191, 173, 9),
        }
    }

    /// The color's components.
    pub fn rgb(self) -> (res: (u8, u8, u8))
        ensures
            res == self.spec_rgb(),
    {
        match self {
            Color::Primary => (47, 49, 54),
            Color::Error => (140, 16, 31),
            Color::Success => (20, 160, 51),
            Color::Warning => (191, 173, 9),
        }
    }

    /// The color's Discord number.
    pub fn colour(self) -> (res: u32)
        ensures
            res == rgb_value(self.spec_rgb().0, self.spec_rgb().1, self.spec_rgb().2),
    {
        let (r, g, b) = self.rgb();
        colour_from_rgb(r, g, b)
    }
}

} // verus!
