//! PPUCTRL (0x2000): bit-packed PPU control register with typed accessors.
use vstd::prelude::*;

verus! {

/// PPUCTRL. Bit 0-1: base nametable address; bit 2: VRAM increment mode;
/// bit 3: sprite pattern table (8x8 sprites); bit 4: background pattern
/// table; bit 5: sprite size; bit 6: master/slave select; bit 7: vblank NMI
/// enable.
#[derive(Debug, Clone, Copy, PartialEq, Eq, Structural)]
pub struct PPUCtrl {
    pub bits: u8,
}

impl PPUCtrl {
    pub fn new() -> (r: Self)
        ensures
            r.bits == 0,
    {
        PPUCtrl { bits: 0 }
    }

    pub fn from_bytes(value: u8) -> (r: Self)
        ensures
            r.bits == value,
    {
        PPUCtrl { bits: value }
    }

    pub fn base_nametable_address(&self) -> (r: u8)
        ensures
            r == self.bits % 4,
    {
        self.bits % 4
    }

    pub fn increment_mode(&self) -> (r: u8)
        ensures
            r == (self.bits / 4) % 2,
    {
        (self.bits / 4) % 2
    }

    pub fn sprite_pattern_table_address(&self) -> (r: u8)
        ensures
            r == (self.bits / 8) % 2,
    {
        (self.bits / 8) % 2
    }

    pub fn background_pattern_table_address(&self) -> (r: u8)
        ensures
            r == (self.bits / 16) % 2,
    {
        (self.bits / 16) % 2
    }

    pub fn sprite_size(&self) -> (r: u8)
        ensures
            r == (self.bits / 32) % 2,
    {
        (self.bits / 32) % 2
    }

    pub fn master_slave_select(&self) -> (r: u8)
        ensures
            r == (self.bits / 64) % 2,
    {
        (self.bits / 64) % 2
    }

    pub fn vblank_nmi_enable(&self) -> (r: u8)
        ensures
            r == self.bits / 128,
    {
        self.bits / 128
    }

    /// Resolves the base nametable address selected by bits 0-1.
    pub fn get_base_nametable_address(&self) -> (r: u16)
        ensures
            r == 0x2000 + 0x400 * ((self.bits % 4) as u16),
    {
        0x2000 + 0x400 * ((self.bits % 4) as u16)
    }

    /// VRAM address increment applied by each PPUDATA access: 1 or 32.
    pub fn get_increment_value(&self) -> (r: u16)
        ensures
            r == (if (self.bits / 4) % 2 == 0 {
                1u16
            } else {
                32u16
            }),
    {
        if (self.bits / 4) % 2 == 0 {
            1
        } else {
            32
        }
    }

    pub fn get_background_pattern_table_address(&self) -> (r: u16)
        ensures
            r == (if (self.bits / 16) % 2 == 0 {
                0x0000u16
            } else {
                0x1000u16
            }),
    {
        if (self.bits / 16) % 2 == 0 {
            0x0000
        } else {
            0x1000
        }
    }

    pub fn get_sprite_pattern_table_address(&self) -> (r: u16)
        ensures
            r == (if (self.bits / 8) % 2 == 0 {
                0x0000u16
            } else {
                0x1000u16
            }),
    {
        if (self.bits / 8) % 2 == 0 {
            0x0000
        } else {
            0x1000
        }
    }

    /// Sprite height in pixels: 8 or 16 per the sprite-size bit.
    pub fn get_sprite_height(&self) -> (r: u8)
        ensures
            r == (if (self.bits / 32) % 2 == 1 {
                16u8
            } else {
                8u8
            }),
    {
        if (self.bits / 32) % 2 == 1 {
            16
        } else {
            8
        }
    }
}

} // verus!
