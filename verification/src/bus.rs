//! The 64 KiB CPU address space: 2 KiB of internal RAM mirrored four
//! times, the PPU register window, the controller ports, the OAM-DMA port
//! and the cartridge PRG window.
use vstd::prelude::*;

use crate::joypad::{Joypad, JoypadV, spec_joypad_read};
use crate::mapper0::{Mapper0, spec_cpu_map_read};
use crate::ppu::{Ppu, PpuV, spec_ppu_wf, spec_read_register, spec_rendering_enabled, spec_write_register};
use crate::util::filled_u8;

verus! {

pub const JOY1: u16 = 0x4016;
pub const JOY2: u16 = 0x4017;

/// Abstract CPU bus state. `dmas` counts completed OAM-DMA transfers.
pub ghost struct BusV {
    pub ram: Seq<u8>,
    pub ppu: PpuV,
    pub joy1: JoypadV,
    pub joy2: JoypadV,
    pub dmas: nat,
}

/// Well-formed CPU bus: 2 KiB of RAM and a well-formed PPU.
pub open spec fn spec_bus_wf(b: BusV) -> bool {
    &&& b.ram.len() == 0x800
    &&& spec_ppu_wf(b.ppu)
}

/// Value and new state of one CPU bus read. 0x0000-0x1FFF is RAM mirrored
/// every 0x800 bytes; 0x2000-0x3FFF is the PPU register window mirrored
/// every 8 bytes; 0x4016/0x4017 are the controller shift registers;
/// 0x8000-0xFFFF is the cartridge PRG window; anything else reads 0.
pub open spec fn spec_bus_read(b: BusV, addr: u16) -> (u8, BusV) {
    if addr < 0x2000 {
        (b.ram[addr as int % 0x800], b)
    } else if addr < 0x4000 {
        let rp = spec_read_register(b.ppu, (0x2000 + addr % 8) as u16);
        (rp.0, BusV { ppu: rp.1, ..b })
    } else if addr == 0x4016 {
        let rj = spec_joypad_read(b.joy1);
        (rj.0, BusV { joy1: rj.1, ..b })
    } else if addr == 0x4017 {
        let rj = spec_joypad_read(b.joy2);
        (rj.0, BusV { joy2: rj.1, ..b })
    } else if addr >= 0x8000 {
        (spec_cpu_map_read(b.ppu.bus.cart->Some_0, addr), b)
    } else {
        (0, b)
    }
}

/// Two chained reads, little endian.
pub open spec fn spec_bus_read16(b: BusV, addr: u16) -> (u16, BusV) {
    let lo = spec_bus_read(b, addr);
    let hi = spec_bus_read(lo.1, addr.wrapping_add(1));
    ((hi.0 as u16 * 256 + lo.0 as u16) as u16, hi.1)
}

/// Two chained reads where the high byte's address wraps within the page:
/// the documented 6502 indirect-JMP bug.
pub open spec fn spec_bus_read16_no_page_crossing(b: BusV, addr: u16) -> (u16, BusV) {
    let lo = spec_bus_read(b, addr);
    let hi_addr = ((addr / 0x100) * 0x100 + addr.wrapping_add(1) % 0x100) as u16;
    let hi = spec_bus_read(lo.1, hi_addr);
    ((hi.0 as u16 * 256 + lo.0 as u16) as u16, hi.1)
}

/// CPU bus state after a write anywhere but the OAM-DMA port. A write to
/// 0x4016 strobes both controllers; writes into the cartridge PRG window
/// and to unmapped addresses are dropped.
pub open spec fn spec_bus_write(b: BusV, addr: u16, data: u8) -> BusV {
    if addr < 0x2000 {
        BusV { ram: b.ram.update(addr as int % 0x800, data), ..b }
    } else if addr < 0x4000 {
        BusV { ppu: spec_write_register(b.ppu, (0x2000 + addr % 8) as u16, data), ..b }
    } else if addr == 0x4016 {
        BusV {
            joy1: JoypadV { latched: b.joy1.state, strobe: data % 2 == 1, reads: 0, ..b.joy1 },
            joy2: JoypadV { latched: b.joy2.state, strobe: data % 2 == 1, reads: 0, ..b.joy2 },
            ..b
        }
    } else {
        b
    }
}

pub struct Bus {
    pub ppu: Ppu,
    pub joypad1: Joypad,
    pub joypad2: Joypad,
    pub internal_ram: Vec<u8>,
    pub dmas: Ghost<nat>,
}

impl View for Bus {
    type V = BusV;

    open spec fn view(&self) -> BusV {
        BusV {
            ram: self.internal_ram@,
            ppu: self.ppu@,
            joy1: self.joypad1@,
            joy2: self.joypad2@,
            dmas: self.dmas@,
        }
    }
}

impl Bus {
    pub open spec fn wf(self) -> bool {
        spec_bus_wf(self@)
    }

    /// A cartridge has been attached.
    pub open spec fn loaded(self) -> bool {
        self@.ppu.bus.cart is Some
    }

    /// A fresh bus: RAM zeroed, no cartridge, vertical arrangement until
    /// a ROM overrides it.
    pub fn new() -> (r: Self)
        ensures
            r.wf(),
            !r.loaded(),
            r@.ram == Seq::new(0x800, |i: int| 0u8),
            r@.ppu.dots == 0,
            r@.ppu.cycle == 0,
            r@.ppu.scanline == 0,
            r@.ppu.status == 0,
            r@.ppu.ctrl == 0,
            r@.ppu.should_nmi == false,
            r@.joy1.reads == 0,
            r@.joy2.reads == 0,
            r@.dmas == 0,
    {
        Bus {
            ppu: Ppu::new(crate::ppu_bus::NametableArrangement::Vertical),
            joypad1: Joypad::new(),
            joypad2: Joypad::new(),
            internal_ram: filled_u8(0x800, 0),
            dmas: Ghost(0),
        }
    }

    /// Attaches the cartridge (shared by the PRG window here and the CHR
    /// window on the PPU bus).
    pub fn set_mapper(&mut self, mapper: Mapper0)
        requires
            mapper.wf(),
        ensures
            final(self)@ == (BusV {
                ppu: PpuV {
                    bus: crate::ppu_bus::PPUBusV { cart: Some(mapper@), ..old(self)@.ppu.bus },
                    ..old(self)@.ppu
                },
                ..old(self)@
            }),
            old(self).wf() ==> final(self).wf(),
            final(self).loaded(),
    {
        self.ppu.set_mapper(mapper);
    }

    /// One CPU bus read; see `spec_bus_read`.
    pub fn read_u8(&mut self, addr: u16) -> (r: u8)
        requires
            old(self).wf(),
            old(self).loaded(),
        ensures
            (r, final(self)@) == spec_bus_read(old(self)@, addr),
            final(self).wf(),
            final(self).loaded(),
    {
        if addr < 0x2000 {
            self.internal_ram[(addr % 0x800) as usize]
        } else if addr < 0x4000 {
            let ppu_register_addr: u16 = 0x2000 + addr % 8;
            self.ppu.read_register(ppu_register_addr)
        } else if addr == JOY1 {
            self.joypad1.read_status()
        } else if addr == JOY2 {
            self.joypad2.read_status()
        } else if addr >= 0x8000 {
            self.ppu.cartridge_cpu_read(addr)
        } else {
            0
        }
    }

    /// Little-endian 16-bit read; see `spec_bus_read16`.
    pub fn read_u16(&mut self, addr: u16) -> (r: u16)
        requires
            old(self).wf(),
            old(self).loaded(),
        ensures
            (r, final(self)@) == spec_bus_read16(old(self)@, addr),
            final(self).wf(),
            final(self).loaded(),
    {
        let lo: u8 = self.read_u8(addr);
        let hi: u8 = self.read_u8(addr.wrapping_add(1));
        (hi as u16) * 256 + lo as u16
    }

    /// 16-bit read that never carries into the high byte of the address;
    /// see `spec_bus_read16_no_page_crossing`.
    pub fn read_u16_no_page_crossing(&mut self, addr: u16) -> (r: u16)
        requires
            old(self).wf(),
            old(self).loaded(),
        ensures
            (r, final(self)@) == spec_bus_read16_no_page_crossing(old(self)@, addr),
            final(self).wf(),
            final(self).loaded(),
    {
        let lo: u8 = self.read_u8(addr);
        let hi_addr: u16 = (addr / 0x100) * 0x100 + addr.wrapping_add(1) % 0x100;
        let hi: u8 = self.read_u8(hi_addr);
        (hi as u16) * 256 + lo as u16
    }

    /// One CPU bus write, returning the extra CPU cycles the write cost.
    /// Every write but the OAM-DMA port follows `spec_bus_write` and costs
    /// nothing extra. A write to 0x4014 performs the whole DMA transfer:
    /// 256 byte-copies into OAM through the OAMDATA register, each framed
    /// by three PPU dots on either side, reported as 513 stall cycles.
    /// When the source page lies in RAM and rendering is switched off (so
    /// OAMDATA writes are not gated), the page lands in OAM byte for byte,
    /// starting at the current OAM address and wrapping.
    #[verifier::rlimit(100)]
    pub fn write_u8(&mut self, addr: u16, data: u8) -> (r: usize)
        requires
            old(self).wf(),
            old(self).loaded(),
        ensures
            final(self).wf(),
            final(self).loaded(),
            addr != 0x4014 ==> final(self)@ == spec_bus_write(old(self)@, addr, data) && r == 0
                && final(self)@.dmas == old(self)@.dmas,
            addr == 0x4014 ==> {
                &&& r == 513
                &&& final(self)@.ppu.dots == old(self)@.ppu.dots + 1536
                &&& final(self)@.dmas == old(self)@.dmas + 1
                &&& final(self)@.ram == old(self)@.ram
                &&& final(self)@.ppu.ctrl == old(self)@.ppu.ctrl
                &&& final(self)@.ppu.mask == old(self)@.ppu.mask
                &&& final(self)@.ppu.bus == old(self)@.ppu.bus
                &&& (data < 0x20 && !spec_rendering_enabled(old(self)@.ppu) ==> {
                    &&& final(self)@.ppu.oam_addr == old(self)@.ppu.oam_addr
                    &&& forall|j: int|
                        0 <= j < 256 ==> final(self)@.ppu.oam[#[trigger] ((old(self)@.ppu.oam_addr
                            + j) % 256)] == old(self)@.ram[(data * 256 + j) % 0x800]
                })
            },
    {
        if addr < 0x2000 {
            self.internal_ram.set((addr % 0x800) as usize, data);
            0
        } else if addr < 0x4000 {
            let ppu_register_addr: u16 = 0x2000 + addr % 8;
            self.ppu.write_register(ppu_register_addr, data);
            0
        } else if addr == JOY1 {
            self.joypad1.set_shift_register_strobe(data % 2 != 0);
            self.joypad2.set_shift_register_strobe(data % 2 != 0);
            0
        } else if addr == crate::ppu::OAMDMA {
            let base_addr: u16 = (data as u16) * 0x100;
            let mut i: u16 = 0;
            while i < 0x100
                invariant
                    i <= 0x100,
                    self.wf(),
                    self.loaded(),
                    self@.ppu.dots == old(self)@.ppu.dots + 6 * i,
                    self@.ram == old(self)@.ram,
                    self@.ppu.ctrl == old(self)@.ppu.ctrl,
                    self@.ppu.mask == old(self)@.ppu.mask,
                    self@.ppu.bus == old(self)@.ppu.bus,
                    self@.dmas == old(self)@.dmas,
                    base_addr == data as u16 * 0x100,
                    data < 0x20 && !spec_rendering_enabled(old(self)@.ppu) ==> {
                        &&& self@.ppu.oam_addr == ((old(self)@.ppu.oam_addr + i) % 256) as u8
                        &&& forall|j: int|
                            0 <= j < i ==> self@.ppu.oam[#[trigger] ((old(self)@.ppu.oam_addr + j)
                                % 256)] == old(self)@.ram[(data * 256 + j) % 0x800]
                    },
                decreases 0x100 - i,
            {
                let ghost pre = self@;
                self.oam_dma_copy_byte(base_addr, i);
                proof {
                    if data < 0x20 && !spec_rendering_enabled(old(self)@.ppu) {
                        assert(base_addr + i < 0x2000);
                        assert(self@.ppu.oam_addr == ((old(self)@.ppu.oam_addr + i + 1)
                            % 256) as u8);
                    }
                }
                i = i + 1;
            }
            self.dmas = Ghost(self.dmas@ + 1);
            513
        } else {
            self.ppu.cartridge_cpu_write(addr, data);
            0
        }
    }

    /// One OAM-DMA byte-copy: read the source byte, three PPU dots, the
    /// OAMDATA write, three more dots. With the source in RAM and
    /// rendering off, the byte lands at the current OAM address.
    #[verifier::rlimit(100)]
    fn oam_dma_copy_byte(&mut self, base_addr: u16, i: u16)
        requires
            old(self).wf(),
            old(self).loaded(),
            i < 0x100,
        ensures
            final(self).wf(),
            final(self).loaded(),
            final(self)@.ppu.dots == old(self)@.ppu.dots + 6,
            final(self)@.ram == old(self)@.ram,
            final(self)@.ppu.ctrl == old(self)@.ppu.ctrl,
            final(self)@.ppu.mask == old(self)@.ppu.mask,
            final(self)@.ppu.bus == old(self)@.ppu.bus,
            final(self)@.dmas == old(self)@.dmas,
            (base_addr + i < 0x2000 && !spec_rendering_enabled(old(self)@.ppu) ==> {
                &&& final(self)@.ppu.oam == old(self)@.ppu.oam.update(
                    old(self)@.ppu.oam_addr as int,
                    old(self)@.ram[(base_addr + i) as int % 0x800],
                )
                &&& final(self)@.ppu.oam_addr == old(self)@.ppu.oam_addr.wrapping_add(1)
            }),
    {
        let byte: u8 = self.read_u8(base_addr.wrapping_add(i));
        self.ppu.tick();
        self.ppu.tick();
        self.ppu.tick();
        self.ppu.write_register(0x2004, byte);
        self.ppu.tick();
        self.ppu.tick();
        self.ppu.tick();
    }
}

} // verus!
