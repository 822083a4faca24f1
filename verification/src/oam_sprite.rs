//! One OAM entry: Y-1, tile index, packed attributes, X, plus a marker for
//! OAM slot 0 (needed for sprite-zero-hit detection).
use vstd::prelude::*;

verus! {

/// Sprite attribute byte. Bits 0-1: palette; bits 2-4: unused; bit 5:
/// priority (0 = in front of background); bit 6: horizontal flip; bit 7:
/// vertical flip.
#[derive(Debug, Clone, Copy, PartialEq, Eq, Structural)]
pub struct OAMSpriteAttributes {
    pub bits: u8,
}

impl OAMSpriteAttributes {
    pub fn from_bytes(value: u8) -> (r: Self)
        ensures
            r.bits == value,
    {
        OAMSpriteAttributes { bits: value }
    }

    pub fn pallette(&self) -> (r: u8)
        ensures
            r == self.bits % 4,
    {
        self.bits % 4
    }

    pub fn priority(&self) -> (r: u8)
        ensures
            r == (self.bits / 32) % 2,
    {
        (self.bits / 32) % 2
    }

    pub fn flip_horizontal(&self) -> (r: u8)
        ensures
            r == (self.bits / 64) % 2,
    {
        (self.bits / 64) % 2
    }

    pub fn flip_vertical(&self) -> (r: u8)
        ensures
            r == self.bits / 128,
    {
        self.bits / 128
    }
}

#[derive(Debug, Clone, Copy, PartialEq, Eq, Structural)]
pub struct OAMSprite {
    y: u8,
    tile_index: u8,
    attributes: OAMSpriteAttributes,
    x: u8,
    is_sprite_0: bool,
}

impl OAMSprite {
    pub closed spec fn spec_y(self) -> u8 {
        self.y
    }

    pub closed spec fn spec_tile_index(self) -> u8 {
        self.tile_index
    }

    pub closed spec fn spec_attributes(self) -> u8 {
        self.attributes.bits
    }

    pub closed spec fn spec_x(self) -> u8 {
        self.x
    }

    pub closed spec fn spec_is_sprite_0(self) -> bool {
        self.is_sprite_0
    }

    pub fn new(y: u8, tile_index: u8, attributes_byte: u8, x: u8, is_sprite_0: bool) -> (r: Self)
        ensures
            r.spec_y() == y,
            r.spec_tile_index() == tile_index,
            r.spec_attributes() == attributes_byte,
            r.spec_x() == x,
            r.spec_is_sprite_0() == is_sprite_0,
    {
        OAMSprite {
            y,
            tile_index,
            attributes: OAMSpriteAttributes::from_bytes(attributes_byte),
            x,
            is_sprite_0,
        }
    }

    pub fn from_bytes(data: &[u8], is_sprite_0: bool) -> (r: Self)
        requires
            data@.len() == 4,
        ensures
            r.spec_y() == data@[0],
            r.spec_tile_index() == data@[1],
            r.spec_attributes() == data@[2],
            r.spec_x() == data@[3],
            r.spec_is_sprite_0() == is_sprite_0,
    {
        OAMSprite::new(data[0], data[1], data[2], data[3], is_sprite_0)
    }

    pub fn is_sprite_0(&self) -> (r: bool)
        ensures
            r == self.spec_is_sprite_0(),
    {
        self.is_sprite_0
    }

    pub fn get_y(&self) -> (r: u8)
        ensures
            r == self.spec_y(),
    {
        self.y
    }

    /// First scanline on which the sprite is drawn: the raw OAM Y plus one.
    pub fn get_rendered_y(&self) -> (r: u16)
        ensures
            r == self.spec_y() as u16 + 1,
    {
        self.y as u16 + 1
    }

    pub fn get_tile_index(&self) -> (r: u8)
        ensures
            r == self.spec_tile_index(),
    {
        self.tile_index
    }

    pub fn get_attributes(&self) -> (r: OAMSpriteAttributes)
        ensures
            r.bits == self.spec_attributes(),
    {
        self.attributes
    }

    pub fn get_x(&self) -> (r: u8)
        ensures
            r == self.spec_x(),
    {
        self.x
    }
}

} // verus!
