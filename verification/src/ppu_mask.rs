//! PPUMASK (0x2001): bit-packed rendering control register.
use vstd::prelude::*;

verus! {

/// PPUMASK. Bit 0: grayscale; bit 1: show background in the leftmost eight
/// pixels; bit 2: show sprites in the leftmost eight pixels; bit 3: show
/// background; bit 4: show sprites; bits 5-7: color emphasis.
#[derive(Debug, Clone, Copy, PartialEq, Eq, Structural)]
pub struct PPUMask {
    pub bits: u8,
}

impl PPUMask {
    pub fn new() -> (r: Self)
        ensures
            r.bits == 0,
    {
        PPUMask { bits: 0 }
    }

    pub fn from_bytes(value: u8) -> (r: Self)
        ensures
            r.bits == value,
    {
        PPUMask { bits: value }
    }

    pub fn grayscale(&self) -> (r: u8)
        ensures
            r == self.bits % 2,
    {
        self.bits % 2
    }

    pub fn show_background_left(&self) -> (r: u8)
        ensures
            r == (self.bits / 2) % 2,
    {
        (self.bits / 2) % 2
    }

    pub fn show_sprites_left(&self) -> (r: u8)
        ensures
            r == (self.bits / 4) % 2,
    {
        (self.bits / 4) % 2
    }

    pub fn show_background(&self) -> (r: u8)
        ensures
            r == (self.bits / 8) % 2,
    {
        (self.bits / 8) % 2
    }

    pub fn show_sprites(&self) -> (r: u8)
        ensures
            r == (self.bits / 16) % 2,
    {
        (self.bits / 16) % 2
    }

    pub fn emphasize_red(&self) -> (r: u8)
        ensures
            r == (self.bits / 32) % 2,
    {
        (self.bits / 32) % 2
    }

    pub fn emphasize_green(&self) -> (r: u8)
        ensures
            r == (self.bits / 64) % 2,
    {
        (self.bits / 64) % 2
    }

    pub fn emphasize_blue(&self) -> (r: u8)
        ensures
            r == self.bits / 128,
    {
        self.bits / 128
    }
}

} // verus!
