//! The 6502 status register: eight flags packed into one byte.
use vstd::prelude::*;

verus! {

pub const FLAG_C: u8 = 0x01;
pub const FLAG_Z: u8 = 0x02;
pub const FLAG_I: u8 = 0x04;
pub const FLAG_D: u8 = 0x08;
pub const FLAG_B: u8 = 0x10;
pub const FLAG_U: u8 = 0x20;
pub const FLAG_V: u8 = 0x40;
pub const FLAG_N: u8 = 0x80;

/// The bits of `bits` selected by `mask` are not all clear.
pub open spec fn flag_set(bits: u8, mask: u8) -> bool {
    bits & mask != 0
}

/// `bits` with the bits selected by `mask` forced to `value`.
pub open spec fn with_flag(bits: u8, mask: u8, value: bool) -> u8 {
    if value {
        bits | mask
    } else {
        bits & !mask
    }
}

/// `bits` with Z set iff `value` is zero and N set iff bit 7 of `value` is set.
pub open spec fn with_zn(bits: u8, value: u8) -> u8 {
    with_flag(with_flag(bits, FLAG_Z, value == 0), FLAG_N, value & 0x80 != 0)
}

/// Status register P: C (carry), Z (zero), I (interrupt disable),
/// D (decimal, latched but unused), B (break, only meaningful on the stack),
/// U (unused, reads 1), V (overflow), N (negative), in bits 0 through 7.
#[derive(Debug, Clone, Copy, PartialEq, Eq, Structural)]
pub struct StatusFlags {
    pub bits: u8,
}

impl StatusFlags {
    pub fn from_bits(bits: u8) -> (r: Self)
        ensures
            r.bits == bits,
    {
        StatusFlags { bits }
    }

    pub fn get_bits(&self) -> (r: u8)
        ensures
            r == self.bits,
    {
        self.bits
    }

    pub fn contains(&self, mask: u8) -> (r: bool)
        ensures
            r == flag_set(self.bits, mask),
    {
        self.bits & mask != 0
    }

    pub fn set(&mut self, mask: u8, value: bool)
        ensures
            final(self).bits == with_flag(old(self).bits, mask, value),
    {
        if value {
            self.bits = self.bits | mask;
        } else {
            self.bits = self.bits & !mask;
        }
    }

    pub fn insert(&mut self, mask: u8)
        ensures
            final(self).bits == (old(self).bits | mask),
    {
        self.bits = self.bits | mask;
    }

    pub fn remove(&mut self, mask: u8)
        ensures
            final(self).bits == (old(self).bits & !mask),
    {
        self.bits = self.bits & !mask;
    }
}

} // verus!
