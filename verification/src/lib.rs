//! Verified components of a SNES emulator: memory-mapped registers, DMA
//! channels, video memory and PPU timing, joypads, cartridges with their
//! headers, save RAM and address mapping, the NEC DSP co-processor and
//! pieces of the SA-1 and Super FX expansion chips.
use vstd::prelude::*;

pub mod bits;
pub mod common;
pub mod constants;
pub mod expansion;
pub mod ext;
pub mod joypad;
pub mod mem;
pub mod video;

verus! {

/// Joypad buttons.
#[derive(Clone, Copy, PartialEq, Eq, Structural, Debug)]
pub enum Button {
    Up,
    Down,
    Left,
    Right,
    A,
    B,
    X,
    Y,
    Start,
    Select,
    L,
    R,
}

impl Button {
    /// The joypad register bit of the button.
    pub open spec fn spec_bit(self) -> u16 {
        match self {
            Button::Up => joypad::Button::UP,
            Button::Down => joypad::Button::DOWN,
            Button::Left => joypad::Button::LEFT,
            Button::Right => joypad::Button::RIGHT,
            Button::A => joypad::Button::A,
            Button::B => joypad::Button::B,
            Button::X => joypad::Button::X,
            Button::Y => joypad::Button::Y,
            Button::Start => joypad::Button::START,
            Button::Select => joypad::Button::SELECT,
            Button::L => joypad::Button::L,
            Button::R => joypad::Button::R,
        }
    }

    /// The joypad flags for the button.
    pub fn joypad_button(self) -> (r: joypad::Button)
        ensures
            r.bits == self.spec_bit(),
    {
        joypad::Button {
            bits: match self {
                Button::Up => joypad::Button::UP,
                Button::Down => joypad::Button::DOWN,
                Button::Left => joypad::Button::LEFT,
                Button::Right => joypad::Button::RIGHT,
                Button::A => joypad::Button::A,
                Button::B => joypad::Button::B,
                Button::X => joypad::Button::X,
                Button::Y => joypad::Button::Y,
                Button::Start => joypad::Button::START,
                Button::Select => joypad::Button::SELECT,
                Button::L => joypad::Button::L,
                Button::R => joypad::Button::R,
            },
        }
    }
}

} // verus!
