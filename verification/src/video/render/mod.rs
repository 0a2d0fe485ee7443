//! Types shared with the renderer.
pub mod bgcache;
pub mod drawing;
pub mod palette;
pub mod patternmem;

use vstd::prelude::*;
use crate::bits::lemma_u8_low_masks;

verus! {

/// Video mode (0-7).
#[derive(Clone, Copy, PartialEq, Eq, Structural, Debug)]
pub enum VideoMode {
    _0,
    _1,
    _2,
    _3,
    _4,
    _5,
    _6,
    _7,
}

impl VideoMode {
    /// The mode selected by the low three bits of `val`.
    pub fn from_bits(val: u8) -> (r: VideoMode)
        ensures
            r == VideoMode::from_index((val % 8) as int),
    {
        proof {
            lemma_u8_low_masks(val);
        }
        let m = val & 0x7;
        if m == 0 {
            VideoMode::_0
        } else if m == 1 {
            VideoMode::_1
        } else if m == 2 {
            VideoMode::_2
        } else if m == 3 {
            VideoMode::_3
        } else if m == 4 {
            VideoMode::_4
        } else if m == 5 {
            VideoMode::_5
        } else if m == 6 {
            VideoMode::_6
        } else {
            VideoMode::_7
        }
    }

    pub open spec fn from_index(m: int) -> VideoMode {
        if m == 0 {
            VideoMode::_0
        } else if m == 1 {
            VideoMode::_1
        } else if m == 2 {
            VideoMode::_2
        } else if m == 3 {
            VideoMode::_3
        } else if m == 4 {
            VideoMode::_4
        } else if m == 5 {
            VideoMode::_5
        } else if m == 6 {
            VideoMode::_6
        } else {
            VideoMode::_7
        }
    }
}

/// An RGB888 colour.
#[derive(Clone, Copy, Debug)]
pub struct Colour {
    pub r: u8,
    pub g: u8,
    pub b: u8,
}

impl Colour {
    pub fn new(r: u8, g: u8, b: u8) -> (c: Colour)
        ensures
            c == (Colour { r: r, g: g, b: b }),
    {
        Colour { r: r, g: g, b: b }
    }

    pub fn zero() -> (c: Colour)
        ensures
            c == (Colour { r: 0, g: 0, b: 0 }),
    {
        Colour { r: 0, g: 0, b: 0 }
    }
}

} // verus!
