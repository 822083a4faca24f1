//! The PPU's internal registers: the "loopy" v/t scroll registers with
//! their coarse/fine subfields, the fine-X latch, the shared write toggle,
//! and the bit-packed control/mask/status registers.
use vstd::prelude::*;

use crate::address_register::AddressRegister;
use crate::ppu_ctrl::PPUCtrl;
use crate::ppu_mask::PPUMask;
use crate::ppu_status::PPUStatus;

verus! {

/// Coarse X scroll: bits 0-4 of a loopy register.
pub open spec fn spec_coarse_x(bits: u16) -> u16 {
    bits % 32
}

/// Coarse Y scroll: bits 5-9 of a loopy register.
pub open spec fn spec_coarse_y(bits: u16) -> u16 {
    (bits / 32) % 32
}

/// Nametable select: bits 10-11 of a loopy register.
pub open spec fn spec_nametable_select(bits: u16) -> u16 {
    (bits / 1024) % 4
}

/// Fine Y scroll: bits 12-14 of a loopy register.
pub open spec fn spec_fine_y(bits: u16) -> u16 {
    (bits / 4096) % 8
}

/// `bits` with its coarse-X field replaced by `v`.
pub open spec fn spec_with_coarse_x(bits: u16, v: u16) -> u16
    recommends
        v < 32,
{
    ((bits / 32) * 32 + v) as u16
}

/// `bits` with its coarse-Y field replaced by `v`.
pub open spec fn spec_with_coarse_y(bits: u16, v: u16) -> u16
    recommends
        v < 32,
{
    (bits % 32 + v * 32 + (bits / 1024) * 1024) as u16
}

/// `bits` with its nametable-select field replaced by `v`.
pub open spec fn spec_with_nametable_select(bits: u16, v: u16) -> u16
    recommends
        v < 4,
{
    (bits % 1024 + v * 1024 + (bits / 4096) * 4096) as u16
}

/// `bits` with its fine-Y field replaced by `v`.
pub open spec fn spec_with_fine_y(bits: u16, v: u16) -> u16
    recommends
        v < 8,
{
    (bits % 4096 + v * 4096 + (bits / 32768) * 32768) as u16
}

proof fn lemma_set_coarse_x(b0: u16, b1: u16, v: u16)
    by (bit_vector)
    requires
        v < 32,
        b1 == (b0 / 32) * 32 + v,
    ensures
        b1 % 32 == v,
        (b1 / 32) % 32 == (b0 / 32) % 32,
        (b1 / 1024) % 4 == (b0 / 1024) % 4,
        (b1 / 4096) % 8 == (b0 / 4096) % 8,
{
}

proof fn lemma_set_coarse_y(b0: u16, b1: u16, v: u16)
    by (bit_vector)
    requires
        v < 32,
        b1 == b0 % 32 + v * 32 + (b0 / 1024) * 1024,
    ensures
        (b1 / 32) % 32 == v,
        b1 % 32 == b0 % 32,
        (b1 / 1024) % 4 == (b0 / 1024) % 4,
        (b1 / 4096) % 8 == (b0 / 4096) % 8,
{
}

proof fn lemma_set_nametable_select(b0: u16, b1: u16, v: u16)
    by (bit_vector)
    requires
        v < 4,
        b1 == b0 % 1024 + v * 1024 + (b0 / 4096) * 4096,
    ensures
        (b1 / 1024) % 4 == v,
        b1 % 32 == b0 % 32,
        (b1 / 32) % 32 == (b0 / 32) % 32,
        (b1 / 4096) % 8 == (b0 / 4096) % 8,
{
}

proof fn lemma_set_fine_y(b0: u16, b1: u16, v: u16)
    by (bit_vector)
    requires
        v < 8,
        b1 == b0 % 4096 + v * 4096 + (b0 / 32768) * 32768,
    ensures
        (b1 / 4096) % 8 == v,
        b1 % 32 == b0 % 32,
        (b1 / 32) % 32 == (b0 / 32) % 32,
        (b1 / 1024) % 4 == (b0 / 1024) % 4,
{
}

/// A 15-bit VRAM address seen through its scroll subfields:
/// fine-Y : nametable-select : coarse-Y : coarse-X.
#[derive(Debug, Clone, Copy, PartialEq, Eq, Structural)]
pub struct ScrollRegister {
    pub bits: u16,
}

impl ScrollRegister {
    pub fn from_bits(value: u16) -> (r: Self)
        ensures
            r.bits == value,
    {
        ScrollRegister { bits: value }
    }

    pub fn into_bits(&self) -> (r: u16)
        ensures
            r == self.bits,
    {
        self.bits
    }

    pub fn coarse_x(&self) -> (r: u8)
        ensures
            r == spec_coarse_x(self.bits),
            r < 32,
    {
        (self.bits % 32) as u8
    }

    pub fn coarse_y(&self) -> (r: u8)
        ensures
            r == spec_coarse_y(self.bits),
            r < 32,
    {
        ((self.bits / 32) % 32) as u8
    }

    pub fn nametable_select(&self) -> (r: u8)
        ensures
            r == spec_nametable_select(self.bits),
            r < 4,
    {
        ((self.bits / 1024) % 4) as u8
    }

    pub fn fine_y(&self) -> (r: u8)
        ensures
            r == spec_fine_y(self.bits),
            r < 8,
    {
        ((self.bits / 4096) % 8) as u8
    }

    pub fn set_coarse_x(&mut self, v: u8)
        requires
            v < 32,
        ensures
            final(self).bits == spec_with_coarse_x(old(self).bits, v as u16),
            spec_coarse_x(final(self).bits) == v,
            spec_coarse_y(final(self).bits) == spec_coarse_y(old(self).bits),
            spec_nametable_select(final(self).bits) == spec_nametable_select(old(self).bits),
            spec_fine_y(final(self).bits) == spec_fine_y(old(self).bits),
    {
        let ghost b0 = self.bits;
        self.bits = (self.bits / 32) * 32 + v as u16;
        proof {
            lemma_set_coarse_x(b0, self.bits, v as u16);
        }
    }

    pub fn set_coarse_y(&mut self, v: u8)
        requires
            v < 32,
        ensures
            final(self).bits == spec_with_coarse_y(old(self).bits, v as u16),
            spec_coarse_y(final(self).bits) == v,
            spec_coarse_x(final(self).bits) == spec_coarse_x(old(self).bits),
            spec_nametable_select(final(self).bits) == spec_nametable_select(old(self).bits),
            spec_fine_y(final(self).bits) == spec_fine_y(old(self).bits),
    {
        let ghost b0 = self.bits;
        self.bits = self.bits % 32 + (v as u16) * 32 + (self.bits / 1024) * 1024;
        proof {
            lemma_set_coarse_y(b0, self.bits, v as u16);
        }
    }

    pub fn set_nametable_select(&mut self, v: u8)
        requires
            v < 4,
        ensures
            final(self).bits == spec_with_nametable_select(old(self).bits, v as u16),
            spec_nametable_select(final(self).bits) == v,
            spec_coarse_x(final(self).bits) == spec_coarse_x(old(self).bits),
            spec_coarse_y(final(self).bits) == spec_coarse_y(old(self).bits),
            spec_fine_y(final(self).bits) == spec_fine_y(old(self).bits),
    {
        let ghost b0 = self.bits;
        self.bits = self.bits % 1024 + (v as u16) * 1024 + (self.bits / 4096) * 4096;
        proof {
            lemma_set_nametable_select(b0, self.bits, v as u16);
        }
    }

    pub fn set_fine_y(&mut self, v: u8)
        requires
            v < 8,
        ensures
            final(self).bits == spec_with_fine_y(old(self).bits, v as u16),
            spec_fine_y(final(self).bits) == v,
            spec_coarse_x(final(self).bits) == spec_coarse_x(old(self).bits),
            spec_coarse_y(final(self).bits) == spec_coarse_y(old(self).bits),
            spec_nametable_select(final(self).bits) == spec_nametable_select(old(self).bits),
    {
        let ghost b0 = self.bits;
        self.bits = self.bits % 4096 + (v as u16) * 4096 + (self.bits / 32768) * 32768;
        proof {
            lemma_set_fine_y(b0, self.bits, v as u16);
        }
    }
}

/// All PPU-internal registers.
pub struct PpuRegisters {
    pub ppu_ctrl: PPUCtrl,
    pub ppu_mask: PPUMask,
    pub ppu_status: PPUStatus,
    pub ppu_addr: AddressRegister,
    pub w: bool,
    pub v: u16,
    pub t: u16,
    pub x: u8,
}

impl PpuRegisters {
    pub fn new() -> (r: Self)
        ensures
            r.ppu_ctrl.bits == 0,
            r.ppu_mask.bits == 0,
            r.ppu_status.bits == 0,
            r.w == false,
            r.v == 0,
            r.t == 0,
            r.x == 0,
    {
        PpuRegisters {
            ppu_ctrl: PPUCtrl::new(),
            ppu_mask: PPUMask::new(),
            ppu_status: PPUStatus::new(),
            ppu_addr: AddressRegister::new(),
            w: false,
            v: 0,
            t: 0,
            x: 0,
        }
    }

    /// Base address of the nametable currently selected by v.
    pub fn get_nametable_address(&self) -> (r: u16)
        ensures
            r == 0x2000 + 0x400 * spec_nametable_select(self.v),
    {
        let sel: u8 = ScrollRegister::from_bits(self.v).nametable_select();
        0x2000 + 0x400 * (sel as u16)
    }
}

} // verus!
