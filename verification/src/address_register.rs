//! The two-write PPU address latch: high byte (masked to 6 bits), then low
//! byte, sharing the PPU's write toggle.
use vstd::prelude::*;

verus! {

#[derive(Debug, Clone, Copy, PartialEq, Eq, Structural)]
pub struct AddressRegister {
    hibyte: u8,
    lobyte: u8,
}

impl AddressRegister {
    pub closed spec fn spec_address(self) -> u16 {
        (self.hibyte as u16 * 256 + self.lobyte as u16) as u16
    }

    pub closed spec fn spec_hibyte(self) -> u8 {
        self.hibyte
    }

    pub closed spec fn spec_lobyte(self) -> u8 {
        self.lobyte
    }

    pub fn new() -> (r: Self)
        ensures
            r.spec_address() == 0,
    {
        AddressRegister { hibyte: 0, lobyte: 0 }
    }

    /// One write through the latch: the first write (toggle clear) sets the
    /// high byte masked into 0x00-0x3F, the second sets the low byte; the
    /// toggle flips either way.
    pub fn update(&mut self, value: u8, write_latch: &mut bool)
        ensures
            *final(write_latch) == !*old(write_latch),
            final(self).spec_hibyte() == (if *old(write_latch) {
                old(self).spec_hibyte()
            } else {
                value % 0x40
            }),
            final(self).spec_lobyte() == (if *old(write_latch) {
                value
            } else {
                old(self).spec_lobyte()
            }),
    {
        if !*write_latch {
            self.hibyte = value % 0x40;
            *write_latch = true;
        } else {
            self.lobyte = value;
            *write_latch = false;
        }
    }

    pub fn get_address(&self) -> (r: u16)
        ensures
            r == self.spec_address(),
            r == self.spec_hibyte() as u16 * 256 + self.spec_lobyte() as u16,
    {
        (self.hibyte as u16) * 256 + (self.lobyte as u16)
    }

    /// Adds `increment` to the 14-bit address, wrapping and re-masking the
    /// high byte into 0x00-0x3F.
    pub fn increment(&mut self, increment: u16)
        ensures
            final(self).spec_lobyte() == (old(self).spec_address().wrapping_add(increment) % 256) as u8,
            final(self).spec_hibyte() == ((old(self).spec_address().wrapping_add(increment) / 256) % 0x40) as u8,
    {
        let addr: u16 = self.get_address().wrapping_add(increment);
        self.lobyte = (addr % 256) as u8;
        self.hibyte = ((addr / 256) % 0x40) as u8;
    }
}

} // verus!
