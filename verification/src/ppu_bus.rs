//! The 16 KiB PPU address space: pattern tables through the cartridge,
//! nametable RAM with arrangement-dependent mirroring, and the 32-byte
//! palette RAM with its hardware aliases.
use vstd::prelude::*;

use crate::mapper0::{Mapper0, Mapper0V, spec_ppu_map_read};

verus! {

/// Physical nametable arrangement on the cartridge board. Vertical
/// arrangement mirrors the left/right nametable pair onto shared backing;
/// horizontal mirrors the top/bottom pair.
#[derive(Debug, Clone, Copy, PartialEq, Eq, Structural)]
pub enum NametableArrangement {
    Vertical,
    Horizontal,
}

/// Folds a logical nametable offset (0x000-0xFFF) onto its physical backing
/// slot under the given arrangement.
pub open spec fn spec_fold_nametable(arr: NametableArrangement, offset: int) -> int {
    match arr {
        NametableArrangement::Vertical => if (0x400 <= offset < 0x800) || (0xc00 <= offset
            < 0x1000) {
            offset - 0x400
        } else {
            offset
        },
        NametableArrangement::Horizontal => if offset >= 0x800 {
            offset - 0x800
        } else {
            offset
        },
    }
}

/// Palette RAM slot for an address in 0x3F00-0x3FFF: the low five bits,
/// except that 0x10/0x14/0x18/0x1C are hardware-aliased down to
/// 0x00/0x04/0x08/0x0C.
pub open spec fn spec_palette_index(addr: u16) -> int {
    let i = addr as int % 0x20;
    if i == 0x10 || i == 0x14 || i == 0x18 || i == 0x1c {
        i - 0x10
    } else {
        i
    }
}

/// Abstract PPU bus state.
pub ghost struct PPUBusV {
    pub cart: Option<Mapper0V>,
    pub nt: Seq<u8>,
    pub pal: Seq<u8>,
    pub arrangement: NametableArrangement,
}

/// Byte read from the PPU address space: 0x0000-0x1FFF from the cartridge
/// CHR window, 0x2000-0x3EFF from nametable RAM (0x3000-0x3EFF aliasing
/// 0x2000-0x2EFF), 0x3F00-0x3FFF from palette RAM; anything else reads 0.
pub open spec fn spec_ppu_bus_read(b: PPUBusV, addr: u16) -> u8
    recommends
        b.cart is Some,
{
    if addr < 0x2000 {
        spec_ppu_map_read(b.cart->Some_0, addr)
    } else if addr < 0x3f00 {
        b.nt[spec_fold_nametable(b.arrangement, addr as int % 0x1000)]
    } else if 0x3f00 <= addr < 0x4000 {
        b.pal[spec_palette_index(addr)]
    } else {
        0
    }
}

/// PPU bus state after a write, by the same decode as the read path;
/// writes above 0x3FFF are dropped.
pub open spec fn spec_ppu_bus_write(b: PPUBusV, addr: u16, data: u8) -> PPUBusV
    recommends
        b.cart is Some,
{
    if addr < 0x2000 {
        PPUBusV {
            cart: Some(
                Mapper0V { chr: b.cart->Some_0.chr.update(addr as int, data), ..b.cart->Some_0 },
            ),
            ..b
        }
    } else if addr < 0x3f00 {
        PPUBusV {
            nt: b.nt.update(spec_fold_nametable(b.arrangement, addr as int % 0x1000), data),
            ..b
        }
    } else if addr < 0x4000 {
        PPUBusV { pal: b.pal.update(spec_palette_index(addr), data), ..b }
    } else {
        b
    }
}

pub struct PPUBus {
    mapper: Option<Mapper0>,
    nametable_ram: Vec<u8>,
    pallette_ram: Vec<u8>,
    nametable_arrangement: NametableArrangement,
}

impl View for PPUBus {
    type V = PPUBusV;

    closed spec fn view(&self) -> PPUBusV {
        PPUBusV {
            cart: match self.mapper {
                Some(m) => Some(m@),
                None => None,
            },
            nt: self.nametable_ram@,
            pal: self.pallette_ram@,
            arrangement: self.nametable_arrangement,
        }
    }
}

/// Well-formed abstract PPU bus state: RAM sizes fixed by the hardware and
/// a well-formed cartridge when one is attached.
pub open spec fn spec_ppu_bus_wf(b: PPUBusV) -> bool {
    &&& b.nt.len() == 0x1000
    &&& b.pal.len() == 0x20
    &&& match b.cart {
        Some(c) => {
            &&& (c.prg.len() == 0x4000 || c.prg.len() == 0x8000)
            &&& c.mirror_prg == (c.prg.len() == 0x4000)
            &&& c.chr.len() == 0x2000
        },
        None => true,
    }
}

impl PPUBus {
    pub open spec fn wf(self) -> bool {
        spec_ppu_bus_wf(self@)
    }

    /// A cartridge has been attached.
    pub open spec fn loaded(self) -> bool {
        self@.cart is Some
    }

    pub fn new(nametable_arrangement: NametableArrangement) -> (r: Self)
        ensures
            r.wf(),
            !r.loaded(),
            r@.nt == Seq::new(0x1000, |i: int| 0u8),
            r@.pal == Seq::new(0x20, |i: int| 0u8),
            r@.arrangement == nametable_arrangement,
    {
        PPUBus {
            mapper: None,
            nametable_ram: crate::util::filled_u8(0x1000, 0),
            pallette_ram: crate::util::filled_u8(0x20, 0),
            nametable_arrangement,
        }
    }

    pub fn set_mapper(&mut self, mapper: Mapper0)
        requires
            mapper.wf(),
        ensures
            final(self)@ == (PPUBusV { cart: Some(mapper@), ..old(self)@ }),
            old(self).wf() ==> final(self).wf(),
            final(self).loaded(),
    {
        self.mapper = Some(mapper);
    }

    pub fn set_nametable_arrangement(&mut self, mode: NametableArrangement)
        ensures
            final(self)@ == (PPUBusV { arrangement: mode, ..old(self)@ }),
            old(self).wf() ==> final(self).wf(),
            old(self).loaded() ==> final(self).loaded(),
    {
        self.nametable_arrangement = mode;
    }

    /// Read access to the cartridge for the CPU-side PRG window.
    pub fn cartridge_cpu_read(&self, addr: u16) -> (r: u8)
        requires
            self.wf(),
            self.loaded(),
        ensures
            r == crate::mapper0::spec_cpu_map_read(self@.cart->Some_0, addr),
    {
        match &self.mapper {
            Some(m) => m.cpu_map_read(addr),
            None => 0,
        }
    }

    /// CPU-side write into the cartridge PRG window; NROM drops it.
    pub fn cartridge_cpu_write(&mut self, addr: u16, data: u8)
        requires
            old(self).wf(),
            old(self).loaded(),
        ensures
            final(self)@ == old(self)@,
            final(self).wf(),
            final(self).loaded(),
    {
        match &mut self.mapper {
            Some(m) => m.cpu_map_write(addr, data),
            None => (),
        }
    }

    fn apply_nametable_arrangement(&self, nametable_addr: usize) -> (r: usize)
        requires
            nametable_addr < 0x1000,
        ensures
            r == spec_fold_nametable(self@.arrangement, nametable_addr as int),
            r < 0x1000,
    {
        match self.nametable_arrangement {
            NametableArrangement::Vertical => {
                if (0x400 <= nametable_addr && nametable_addr < 0x800) || (0xc00 <= nametable_addr
                    && nametable_addr < 0x1000) {
                    nametable_addr - 0x400
                } else {
                    nametable_addr
                }
            },
            NametableArrangement::Horizontal => {
                if nametable_addr >= 0x800 {
                    nametable_addr - 0x800
                } else {
                    nametable_addr
                }
            },
        }
    }

    fn palette_index(addr: u16) -> (r: usize)
        ensures
            r == spec_palette_index(addr),
            r < 0x20,
    {
        let i: usize = (addr % 0x20) as usize;
        if i == 0x10 || i == 0x14 || i == 0x18 || i == 0x1c {
            i - 0x10
        } else {
            i
        }
    }

    pub fn read_u8(&self, addr: u16) -> (r: u8)
        requires
            self.wf(),
            self.loaded(),
        ensures
            r == spec_ppu_bus_read(self@, addr),
    {
        if addr < 0x2000 {
            self.cartridge_ppu_read(addr)
        } else if addr < 0x3f00 {
            let nametable_addr: usize = (addr % 0x1000) as usize;
            self.nametable_ram[self.apply_nametable_arrangement(nametable_addr)]
        } else if addr < 0x4000 {
            self.pallette_ram[Self::palette_index(addr)]
        } else {
            0
        }
    }

    pub fn write_u8(&mut self, addr: u16, data: u8)
        requires
            old(self).wf(),
            old(self).loaded(),
        ensures
            final(self)@ == spec_ppu_bus_write(old(self)@, addr, data),
            final(self).wf(),
            final(self).loaded(),
    {
        if addr < 0x2000 {
            match &mut self.mapper {
                Some(m) => m.ppu_map_write(addr, data),
                None => (),
            }
        } else if addr < 0x3f00 {
            let nametable_addr: usize = (addr % 0x1000) as usize;
            let slot: usize = self.apply_nametable_arrangement(nametable_addr);
            self.nametable_ram.set(slot, data);
        } else if addr < 0x4000 {
            self.pallette_ram.set(Self::palette_index(addr), data);
        }
    }

    fn cartridge_ppu_read(&self, addr: u16) -> (r: u8)
        requires
            self.wf(),
            self.loaded(),
        ensures
            r == spec_ppu_map_read(self@.cart->Some_0, addr),
    {
        match &self.mapper {
            Some(m) => m.ppu_map_read(addr),
            None => 0,
        }
    }
}

/// Palette aliasing: entries 0x10, 0x14, 0x18 and 0x1C of palette RAM are
/// the same cells as 0x00, 0x04, 0x08 and 0x0C.
pub proof fn lemma_palette_alias_index()
    ensures
        spec_palette_index(0x3f10) == spec_palette_index(0x3f00),
        spec_palette_index(0x3f14) == spec_palette_index(0x3f04),
        spec_palette_index(0x3f18) == spec_palette_index(0x3f08),
        spec_palette_index(0x3f1c) == spec_palette_index(0x3f0c),
{
}

/// Writing any palette address and reading any address that shares its
/// palette cell (in particular each aliased pair, in either direction)
/// returns the written byte.
pub proof fn lemma_palette_write_read(b: PPUBusV, a1: u16, a2: u16, data: u8)
    requires
        spec_ppu_bus_wf(b),
        0x3f00 <= a1 < 0x4000,
        0x3f00 <= a2 < 0x4000,
        spec_palette_index(a1) == spec_palette_index(a2),
    ensures
        spec_ppu_bus_read(spec_ppu_bus_write(b, a1, data), a2) == data,
{
}

/// Nametable mirroring: with the vertical arrangement (left/right pairs
/// share backing) a write to 0x2000 is visible at 0x2400 while reads at
/// 0x2800 are untouched; with the horizontal arrangement (top/bottom pairs
/// share backing) it is visible at 0x2800 while reads at 0x2400 are
/// untouched.
pub proof fn lemma_nametable_mirroring(b: PPUBusV, data: u8)
    requires
        spec_ppu_bus_wf(b),
    ensures
        b.arrangement == NametableArrangement::Vertical ==> spec_ppu_bus_read(
            spec_ppu_bus_write(b, 0x2000, data),
            0x2400,
        ) == data && spec_ppu_bus_read(spec_ppu_bus_write(b, 0x2000, data), 0x2800)
            == spec_ppu_bus_read(b, 0x2800),
        b.arrangement == NametableArrangement::Horizontal ==> spec_ppu_bus_read(
            spec_ppu_bus_write(b, 0x2000, data),
            0x2800,
        ) == data && spec_ppu_bus_read(spec_ppu_bus_write(b, 0x2000, data), 0x2400)
            == spec_ppu_bus_read(b, 0x2400),
{
}

} // verus!
