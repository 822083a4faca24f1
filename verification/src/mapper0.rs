//! NROM (mapper 0): 16 or 32 KiB of PRG ROM mapped at 0x8000-0xFFFF and
//! 8 KiB of CHR at 0x0000-0x1FFF, with CHR RAM when the cartridge has none.
//! This one concrete type carries the whole cartridge capability set
//! (CPU read/write, PPU read/write, mirroring hint); supporting further
//! mappers would widen it into a sum type over the same five operations.
use vstd::prelude::*;

use crate::util::filled_u8;

verus! {

pub const PRG_BANK_SIZE: usize = 0x4000;
pub const CHR_BANK_SIZE: usize = 0x2000;

/// Abstract cartridge contents.
pub ghost struct Mapper0V {
    pub prg: Seq<u8>,
    pub chr: Seq<u8>,
    pub mirror_prg: bool,
}

/// Byte served to the CPU for an address: the PRG window at 0x8000-0xFFFF,
/// folded onto a single 16 KiB bank when the cartridge has only one; reads
/// outside the window return 0.
pub open spec fn spec_cpu_map_read(m: Mapper0V, addr: u16) -> u8 {
    if addr >= 0x8000 {
        if m.mirror_prg {
            m.prg[(addr - 0x8000) as int % 0x4000]
        } else {
            m.prg[(addr - 0x8000) as int]
        }
    } else {
        0
    }
}

/// Byte served to the PPU for an address: the CHR window at 0x0000-0x1FFF;
/// reads outside it return 0.
pub open spec fn spec_ppu_map_read(m: Mapper0V, addr: u16) -> u8 {
    if addr < 0x2000 {
        m.chr[addr as int]
    } else {
        0
    }
}

pub struct Mapper0 {
    prg_rom: Vec<u8>,
    should_mirror_prg_rom_page: bool,
    chr_rom: Vec<u8>,
}

impl View for Mapper0 {
    type V = Mapper0V;

    closed spec fn view(&self) -> Mapper0V {
        Mapper0V {
            prg: self.prg_rom@,
            chr: self.chr_rom@,
            mirror_prg: self.should_mirror_prg_rom_page,
        }
    }
}

impl Mapper0 {
    pub open spec fn wf(self) -> bool {
        &&& (self@.prg.len() == 0x4000 || self@.prg.len() == 0x8000)
        &&& self@.mirror_prg == (self@.prg.len() == 0x4000)
        &&& self@.chr.len() == 0x2000
    }

    /// Builds the cartridge; an empty CHR image stands for 8 KiB of
    /// zero-initialized CHR RAM.
    pub fn new(prg_rom: Vec<u8>, chr_rom: Vec<u8>) -> (r: Self)
        requires
            prg_rom@.len() == 0x4000 || prg_rom@.len() == 0x8000,
            chr_rom@.len() == 0 || chr_rom@.len() == 0x2000,
        ensures
            r.wf(),
            r@.prg == prg_rom@,
            r@.chr == if chr_rom@.len() == 0 {
                Seq::new(0x2000, |i: int| 0u8)
            } else {
                chr_rom@
            },
    {
        let should_mirror_prg_rom_page = prg_rom.len() == PRG_BANK_SIZE;
        let chr = if chr_rom.len() == 0 {
            filled_u8(CHR_BANK_SIZE, 0)
        } else {
            chr_rom
        };
        Mapper0 { prg_rom, should_mirror_prg_rom_page, chr_rom: chr }
    }

    /// CPU-side read of the PRG window.
    pub fn cpu_map_read(&self, addr: u16) -> (r: u8)
        requires
            self.wf(),
        ensures
            r == spec_cpu_map_read(self@, addr),
    {
        if addr >= 0x8000 {
            let prg_rom_addr = (addr - 0x8000) as usize;
            if self.should_mirror_prg_rom_page {
                self.prg_rom[prg_rom_addr % 0x4000]
            } else {
                self.prg_rom[prg_rom_addr]
            }
        } else {
            0
        }
    }

    /// CPU-side writes land in ROM and are dropped.
    pub fn cpu_map_write(&mut self, addr: u16, data: u8)
        ensures
            final(self)@ == old(self)@,
    {
    }

    /// PPU-side read of the CHR window.
    pub fn ppu_map_read(&self, addr: u16) -> (r: u8)
        requires
            self.wf(),
        ensures
            r == spec_ppu_map_read(self@, addr),
    {
        if addr < 0x2000 {
            self.chr_rom[addr as usize]
        } else {
            0
        }
    }

    /// PPU-side write: retained in the CHR window (CHR RAM), dropped outside.
    pub fn ppu_map_write(&mut self, addr: u16, data: u8)
        requires
            old(self).wf(),
        ensures
            final(self).wf(),
            final(self)@.prg == old(self)@.prg,
            final(self)@.mirror_prg == old(self)@.mirror_prg,
            final(self)@.chr == if addr < 0x2000 {
                old(self)@.chr.update(addr as int, data)
            } else {
                old(self)@.chr
            },
    {
        if addr < 0x2000 {
            self.chr_rom.set(addr as usize, data);
        }
    }
}

} // verus!
