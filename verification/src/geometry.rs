//! Plain geometric values: vectors, rectangles and colors.
//!
//! Screen coordinates and velocities are measured in quarter pixels, so that
//! every speed the game uses (whole pixels for the paddles, multiples of a
//! quarter pixel for the ball) is an exact integer. Texture rectangles stay
//! in whole pixels: they crop image files, which have no subpixels.

use vstd::prelude::*;

verus! {

/// Quarter-pixel units per pixel.
pub const SUBPIXELS: i32 = 4;

/// A two-dimensional vector in quarter-pixel units.
#[derive(Clone, Copy, PartialEq, Eq, Structural, Debug)]
pub struct Vec2 {
    pub x: i32,
    pub y: i32,
}

impl Vec2 {
    /// A vector with the given components.
    pub fn new(x: i32, y: i32) -> (r: Vec2)
        ensures
            r == (Vec2 { x: x, y: y }),
    {
        Vec2 { x: x, y: y }
    }
}

/// An axis-aligned rectangle in whole pixels, used to crop textures.
#[derive(Clone, Copy, PartialEq, Eq, Structural, Debug)]
pub struct IntRect {
    pub left: i32,
    pub top: i32,
    pub width: i32,
    pub height: i32,
}

/// An 8-bit-per-channel color with alpha.
#[derive(Clone, Copy, PartialEq, Eq, Structural, Debug)]
pub struct Color {
    pub red: u8,
    pub green: u8,
    pub blue: u8,
    pub alpha: u8,
}

impl Color {
    /// An opaque color from its three channels.
    pub fn new_rgb(red: u8, green: u8, blue: u8) -> (r: Color)
        ensures
            r == (Color { red: red, green: green, blue: blue, alpha: 255u8 }),
    {
        Color { red: red, green: green, blue: blue, alpha: 255 }
    }
}

} // verus!
