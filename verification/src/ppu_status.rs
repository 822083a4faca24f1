//! PPUSTATUS (0x2002): bit-packed PPU status register.
use vstd::prelude::*;

verus! {

/// PPUSTATUS. Bits 0-4: open-bus identifier bits; bit 5: sprite overflow;
/// bit 6: sprite-zero hit; bit 7: vblank.
#[derive(Debug, Clone, Copy, PartialEq, Eq, Structural)]
pub struct PPUStatus {
    pub bits: u8,
}

impl PPUStatus {
    pub fn new() -> (r: Self)
        ensures
            r.bits == 0,
    {
        PPUStatus { bits: 0 }
    }

    pub fn into_bytes(&self) -> (r: u8)
        ensures
            r == self.bits,
    {
        self.bits
    }

    pub fn sprite_overflow(&self) -> (r: u8)
        ensures
            r == (self.bits / 32) % 2,
    {
        (self.bits / 32) % 2
    }

    pub fn sprite_zero_hit(&self) -> (r: u8)
        ensures
            r == (self.bits / 64) % 2,
    {
        (self.bits / 64) % 2
    }

    pub fn vblank(&self) -> (r: u8)
        ensures
            r == self.bits / 128,
    {
        self.bits / 128
    }

    pub fn set_sprite_overflow(&mut self, v: u8)
        requires
            v <= 1,
        ensures
            final(self).bits == old(self).bits % 32 + v * 32 + (old(self).bits / 64) * 64,
            final(self).bits / 64 == old(self).bits / 64,
            final(self).bits % 32 == old(self).bits % 32,
            (final(self).bits / 32) % 2 == v,
    {
        self.bits = self.bits % 32 + v * 32 + (self.bits / 64) * 64;
    }

    pub fn set_sprite_zero_hit(&mut self, v: u8)
        requires
            v <= 1,
        ensures
            final(self).bits == old(self).bits % 64 + v * 64 + (old(self).bits / 128) * 128,
            final(self).bits / 128 == old(self).bits / 128,
            final(self).bits % 64 == old(self).bits % 64,
            (final(self).bits / 64) % 2 == v,
    {
        self.bits = self.bits % 64 + v * 64 + (self.bits / 128) * 128;
    }

    pub fn set_vblank(&mut self, v: u8)
        requires
            v <= 1,
        ensures
            final(self).bits == old(self).bits % 128 + v * 128,
            final(self).bits / 128 == v,
            final(self).bits % 128 == old(self).bits % 128,
    {
        self.bits = self.bits % 128 + v * 128;
    }
}

} // verus!
