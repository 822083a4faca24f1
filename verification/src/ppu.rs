//! The picture processing unit: a 341-dot by 262-scanline NTSC state
//! machine that renders one 256x240 RGBA frame per pass, raises the vblank
//! NMI, and exposes the memory-mapped register window at 0x2000-0x2007.
use vstd::prelude::*;

use crate::mapper0::Mapper0;
use crate::oam_sprite::OAMSprite;
use crate::ppu_bus::{
    NametableArrangement, PPUBus, PPUBusV, spec_ppu_bus_read, spec_ppu_bus_write,
};
use crate::ppu_ctrl::PPUCtrl;
use crate::ppu_mask::PPUMask;
use crate::ppu_registers::{
    PpuRegisters, ScrollRegister, spec_coarse_x, spec_coarse_y, spec_fine_y,
    spec_nametable_select, spec_with_coarse_x, spec_with_coarse_y, spec_with_fine_y,
    spec_with_nametable_select,
};
use crate::util::{filled_bool, filled_u8, spec_pow2_u8};

verus! {

pub const PPUCTRL: u16 = 0x2000;
pub const PPUMASK: u16 = 0x2001;
pub const PPUSTATUS: u16 = 0x2002;
pub const OAMADDR: u16 = 0x2003;
pub const OAMDATA: u16 = 0x2004;
pub const PPUSCROLL: u16 = 0x2005;
pub const PPUADDR: u16 = 0x2006;
pub const PPUDATA: u16 = 0x2007;
pub const OAMDMA: u16 = 0x4014;

pub const PALLETTE_TABLE_START: u16 = 0x3F00;

/// The 64-entry NTSC master palette approximation, as (R, G, B).
pub open spec fn spec_color(idx: u8) -> (u8, u8, u8) {
    match idx {
        0 => (84u8, 84u8, 84u8),
        1 => (0u8, 30u8, 116u8),
        2 => (8u8, 16u8, 144u8),
        3 => (48u8, 0u8, 136u8),
        4 => (68u8, 0u8, 100u8),
        5 => (92u8, 0u8, 48u8),
        6 => (84u8, 4u8, 0u8),
        7 => (60u8, 24u8, 0u8),
        8 => (32u8, 42u8, 0u8),
        9 => (8u8, 58u8, 0u8),
        10 => (0u8, 64u8, 0u8),
        11 => (0u8, 60u8, 0u8),
        12 => (0u8, 50u8, 60u8),
        13 => (0u8, 0u8, 0u8),
        14 => (0u8, 0u8, 0u8),
        15 => (0u8, 0u8, 0u8),
        16 => (152u8, 150u8, 152u8),
        17 => (8u8, 76u8, 196u8),
        18 => (48u8, 50u8, 236u8),
        19 => (92u8, 30u8, 228u8),
        20 => (136u8, 20u8, 176u8),
        21 => (160u8, 20u8, 100u8),
        22 => (152u8, 34u8, 32u8),
        23 => (120u8, 60u8, 0u8),
        24 => (84u8, 90u8, 0u8),
        25 => (40u8, 114u8, 0u8),
        26 => (8u8, 124u8, 0u8),
        27 => (0u8, 118u8, 40u8),
        28 => (0u8, 102u8, 120u8),
        29 => (0u8, 0u8, 0u8),
        30 => (0u8, 0u8, 0u8),
        31 => (0u8, 0u8, 0u8),
        32 => (236u8, 238u8, 236u8),
        33 => (76u8, 154u8, 236u8),
        34 => (120u8, 124u8, 236u8),
        35 => (176u8, 98u8, 236u8),
        36 => (228u8, 84u8, 236u8),
        37 => (236u8, 88u8, 180u8),
        38 => (236u8, 106u8, 100u8),
        39 => (212u8, 136u8, 32u8),
        40 => (160u8, 170u8, 0u8),
        41 => (116u8, 196u8, 0u8),
        42 => (76u8, 208u8, 32u8),
        43 => (56u8, 204u8, 108u8),
        44 => (56u8, 180u8, 204u8),
        45 => (60u8, 60u8, 60u8),
        46 => (0u8, 0u8, 0u8),
        47 => (0u8, 0u8, 0u8),
        48 => (236u8, 238u8, 236u8),
        49 => (168u8, 204u8, 236u8),
        50 => (188u8, 188u8, 236u8),
        51 => (212u8, 178u8, 236u8),
        52 => (236u8, 174u8, 236u8),
        53 => (236u8, 174u8, 212u8),
        54 => (236u8, 180u8, 176u8),
        55 => (228u8, 196u8, 144u8),
        56 => (204u8, 210u8, 120u8),
        57 => (180u8, 222u8, 120u8),
        58 => (168u8, 226u8, 144u8),
        59 => (152u8, 226u8, 180u8),
        60 => (160u8, 214u8, 228u8),
        61 => (160u8, 162u8, 160u8),
        62 => (0u8, 0u8, 0u8),
        63 => (0u8, 0u8, 0u8),
        _ => (0u8, 0u8, 0u8),
    }
}

/// Looks up one entry of the NTSC master palette.
pub fn color_rgb(idx: u8) -> (r: (u8, u8, u8))
    ensures
        r == spec_color(idx),
{
    match idx {
        0 => (84, 84, 84),
        1 => (0, 30, 116),
        2 => (8, 16, 144),
        3 => (48, 0, 136),
        4 => (68, 0, 100),
        5 => (92, 0, 48),
        6 => (84, 4, 0),
        7 => (60, 24, 0),
        8 => (32, 42, 0),
        9 => (8, 58, 0),
        10 => (0, 64, 0),
        11 => (0, 60, 0),
        12 => (0, 50, 60),
        13 => (0, 0, 0),
        14 => (0, 0, 0),
        15 => (0, 0, 0),
        16 => (152, 150, 152),
        17 => (8, 76, 196),
        18 => (48, 50, 236),
        19 => (92, 30, 228),
        20 => (136, 20, 176),
        21 => (160, 20, 100),
        22 => (152, 34, 32),
        23 => (120, 60, 0),
        24 => (84, 90, 0),
        25 => (40, 114, 0),
        26 => (8, 124, 0),
        27 => (0, 118, 40),
        28 => (0, 102, 120),
        29 => (0, 0, 0),
        30 => (0, 0, 0),
        31 => (0, 0, 0),
        32 => (236, 238, 236),
        33 => (76, 154, 236),
        34 => (120, 124, 236),
        35 => (176, 98, 236),
        36 => (228, 84, 236),
        37 => (236, 88, 180),
        38 => (236, 106, 100),
        39 => (212, 136, 32),
        40 => (160, 170, 0),
        41 => (116, 196, 0),
        42 => (76, 208, 32),
        43 => (56, 204, 108),
        44 => (56, 180, 204),
        45 => (60, 60, 60),
        46 => (0, 0, 0),
        47 => (0, 0, 0),
        48 => (236, 238, 236),
        49 => (168, 204, 236),
        50 => (188, 188, 236),
        51 => (212, 178, 236),
        52 => (236, 174, 236),
        53 => (236, 174, 212),
        54 => (236, 180, 176),
        55 => (228, 196, 144),
        56 => (204, 210, 120),
        57 => (180, 222, 120),
        58 => (168, 226, 144),
        59 => (152, 226, 180),
        60 => (160, 214, 228),
        61 => (160, 162, 160),
        62 => (0, 0, 0),
        63 => (0, 0, 0),
        _ => (0, 0, 0),
    }
}

/// Abstract PPU state: registers, internal latches and shifters, OAM, the
/// sprite evaluation buffer, the framebuffer, and a dot counter that only
/// grows (one per tick).
pub ghost struct PpuV {
    pub ctrl: u8,
    pub mask: u8,
    pub status: u8,
    pub w: bool,
    pub v: u16,
    pub t: u16,
    pub x: u8,
    pub bus: PPUBusV,
    pub read_buffer: u8,
    pub scanline: u16,
    pub cycle: u16,
    pub had_pre_render: bool,
    pub fb: Seq<u8>,
    pub informed_frame_ready: bool,
    pub should_nmi: bool,
    pub oam: Seq<u8>,
    pub oam_addr: u8,
    pub nt_byte: u8,
    pub at_byte: u8,
    pub pat_lo: u8,
    pub pat_hi: u8,
    pub sh_pat_lo: u16,
    pub sh_pat_hi: u16,
    pub sh_at_lo: u16,
    pub sh_at_hi: u16,
    pub sprites: Seq<OAMSprite>,
    pub sprite_count: nat,
    pub opaque_bg: Seq<bool>,
    pub dots: nat,
}

/// Background or sprite rendering is switched on in PPUMASK.
pub open spec fn spec_rendering_enabled(p: PpuV) -> bool {
    (p.mask / 8) % 2 == 1 || (p.mask / 16) % 2 == 1
}

/// The PPU is inside the visible frame with rendering on and vblank clear;
/// OAMDATA writes are dropped in this state.
pub open spec fn spec_is_rendering(p: PpuV) -> bool {
    &&& p.scanline < 240
    &&& spec_rendering_enabled(p)
    &&& p.status / 128 == 0
}

/// VRAM address increment per PPUDATA access: 1 or 32 by PPUCTRL bit 2.
pub open spec fn spec_increment(ctrl: u8) -> u16 {
    if (ctrl / 4) % 2 == 0 {
        1
    } else {
        32
    }
}

/// State after a write to a PPU register (`addr` is the folded register
/// address, 0x2000-0x2007). PPUCTRL and PPUMASK writes are dropped until
/// the first pre-render scanline has passed (power-on warm-up); a PPUCTRL
/// write that switches NMI generation on during vblank raises the NMI at
/// once.
pub open spec fn spec_write_register(p: PpuV, addr: u16, value: u8) -> PpuV {
    if addr == 0x2000 {
        if p.had_pre_render {
            PpuV {
                t: spec_with_nametable_select(p.t, (value % 4) as u16),
                ctrl: value,
                should_nmi: p.should_nmi || (p.ctrl / 128 == 0 && value / 128 == 1 && p.status
                    / 128 == 1),
                ..p
            }
        } else {
            p
        }
    } else if addr == 0x2001 {
        if p.had_pre_render {
            PpuV { mask: value, ..p }
        } else {
            p
        }
    } else if addr == 0x2003 {
        PpuV { oam_addr: value, ..p }
    } else if addr == 0x2004 {
        if !spec_is_rendering(p) {
            PpuV {
                oam: p.oam.update(p.oam_addr as int, value),
                oam_addr: p.oam_addr.wrapping_add(1),
                ..p
            }
        } else {
            p
        }
    } else if addr == 0x2005 {
        if !p.w {
            PpuV { t: spec_with_coarse_x(p.t, (value / 8) as u16), x: value % 8, w: true, ..p }
        } else {
            PpuV {
                t: spec_with_fine_y(
                    spec_with_coarse_y(p.t, (value / 8) as u16),
                    (value % 8) as u16,
                ),
                w: false,
                ..p
            }
        }
    } else if addr == 0x2006 {
        if !p.w {
            PpuV { t: (p.t % 0x100 + (value % 0x40) as u16 * 0x100) as u16, w: true, ..p }
        } else {
            let t2 = ((p.t / 0x100) * 0x100 + value) as u16;
            PpuV { t: t2, v: t2, w: false, ..p }
        }
    } else if addr == 0x2007 {
        PpuV {
            bus: spec_ppu_bus_write(p.bus, p.v, value),
            v: p.v.wrapping_add(spec_increment(p.ctrl)),
            ..p
        }
    } else {
        p
    }
}

/// Result and state after a read of a PPU register. PPUSTATUS reads clear
/// vblank and the write toggle. PPUDATA reads go through the one-deep read
/// buffer, except palette addresses, which return the fresh value while the
/// buffer refreshes from the nametable mirror underneath.
pub open spec fn spec_read_register(p: PpuV, addr: u16) -> (u8, PpuV) {
    if addr == 0x2002 {
        (p.status, PpuV { w: false, status: (p.status % 128) as u8, ..p })
    } else if addr == 0x2004 {
        (p.oam[p.oam_addr as int], p)
    } else if addr == 0x2007 {
        let data = spec_ppu_bus_read(p.bus, p.v);
        let v2 = p.v.wrapping_add(spec_increment(p.ctrl));
        if 0x3f00 <= p.v < 0x4000 {
            (
                data,
                PpuV {
                    v: v2,
                    read_buffer: spec_ppu_bus_read(p.bus, (p.v - 0x1000) as u16),
                    ..p
                },
            )
        } else {
            (p.read_buffer, PpuV { v: v2, read_buffer: data, ..p })
        }
    } else {
        (0, p)
    }
}

/// A two-bit nametable-select value with its horizontal bit flipped.
pub open spec fn spec_flip_nt_h(n: u16) -> u16 {
    if n % 2 == 0 {
        (n + 1) as u16
    } else {
        (n - 1) as u16
    }
}

/// A two-bit nametable-select value with its vertical bit flipped.
pub open spec fn spec_flip_nt_v(n: u16) -> u16 {
    if (n / 2) % 2 == 0 {
        (n + 2) as u16
    } else {
        (n - 2) as u16
    }
}

/// v after the coarse-X increment that ends each tile fetch: coarse-X 31
/// wraps to 0 and flips the horizontal nametable bit.
pub open spec fn spec_increment_scroll_x(v: u16) -> u16 {
    if spec_coarse_x(v) == 31 {
        spec_with_nametable_select(
            spec_with_coarse_x(v, 0),
            spec_flip_nt_h(spec_nametable_select(v)),
        )
    } else {
        spec_with_coarse_x(v, (spec_coarse_x(v) + 1) as u16)
    }
}

/// v after the fine-Y increment at cycle 256: fine-Y overflows into
/// coarse-Y, where row 29 wraps to 0 flipping the vertical nametable bit
/// and row 31 wraps to 0 without flipping.
pub open spec fn spec_increment_scroll_y(v: u16) -> u16 {
    if spec_fine_y(v) < 7 {
        spec_with_fine_y(v, (spec_fine_y(v) + 1) as u16)
    } else {
        let v0 = spec_with_fine_y(v, 0);
        if spec_coarse_y(v) == 29 {
            spec_with_nametable_select(
                spec_with_coarse_y(v0, 0),
                spec_flip_nt_v(spec_nametable_select(v)),
            )
        } else if spec_coarse_y(v) == 31 {
            spec_with_coarse_y(v0, 0)
        } else {
            spec_with_coarse_y(v0, (spec_coarse_y(v) + 1) as u16)
        }
    }
}

/// v with its horizontal components (coarse-X and the horizontal nametable
/// bit) copied from t.
pub open spec fn spec_copy_horizontal(v: u16, t: u16) -> u16 {
    spec_with_nametable_select(
        spec_with_coarse_x(v, spec_coarse_x(t)),
        ((spec_nametable_select(v) / 2) * 2 + spec_nametable_select(t) % 2) as u16,
    )
}

/// v with its vertical components (coarse-Y, fine-Y and the vertical
/// nametable bit) copied from t.
pub open spec fn spec_copy_vertical(v: u16, t: u16) -> u16 {
    spec_with_nametable_select(
        spec_with_fine_y(spec_with_coarse_y(v, spec_coarse_y(t)), spec_fine_y(t)),
        (spec_nametable_select(v) % 2 + (spec_nametable_select(t) / 2) * 2) as u16,
    )
}

/// One background pipeline step (see `Ppu::background_pipeline_step`): the
/// four shifters advance, then one of the eight fetch phases selected by
/// (cycle - 1) mod 8 runs.
pub open spec fn spec_bg_step(p: PpuV) -> PpuV
    recommends
        p.cycle >= 1,
{
    let sh = PpuV {
        sh_pat_lo: p.sh_pat_lo.wrapping_mul(2),
        sh_pat_hi: p.sh_pat_hi.wrapping_mul(2),
        sh_at_lo: p.sh_at_lo.wrapping_mul(2),
        sh_at_hi: p.sh_at_hi.wrapping_mul(2),
        ..p
    };
    let phase = ((p.cycle - 1) as u16) % 8;
    if phase == 0 {
        PpuV { nt_byte: spec_ppu_bus_read(p.bus, (0x2000 + p.v % 0x1000) as u16), ..sh }
    } else if phase == 2 {
        PpuV { at_byte: spec_attribute_fetch(p), ..sh }
    } else if phase == 4 {
        PpuV {
            pat_lo: spec_ppu_bus_read(
                p.bus,
                (spec_bg_pattern_base(p.ctrl) + p.nt_byte as u16 * 16 + spec_fine_y(p.v)) as u16,
            ),
            ..sh
        }
    } else if phase == 6 {
        PpuV {
            pat_hi: spec_ppu_bus_read(
                p.bus,
                (spec_bg_pattern_base(p.ctrl) + p.nt_byte as u16 * 16 + 8 + spec_fine_y(
                    p.v,
                )) as u16,
            ),
            ..sh
        }
    } else if phase == 7 {
        PpuV {
            v: spec_increment_scroll_x(p.v),
            sh_pat_lo: ((sh.sh_pat_lo / 256) * 256 + p.pat_lo) as u16,
            sh_pat_hi: ((sh.sh_pat_hi / 256) * 256 + p.pat_hi) as u16,
            sh_at_lo: ((sh.sh_at_lo / 256) * 256 + (if p.at_byte % 2 == 1 {
                0xffu16
            } else {
                0u16
            })) as u16,
            sh_at_hi: ((sh.sh_at_hi / 256) * 256 + (if (p.at_byte / 2) % 2 == 1 {
                0xffu16
            } else {
                0u16
            })) as u16,
            ..sh
        }
    } else {
        sh
    }
}

/// Background pattern table base selected by PPUCTRL bit 4.
pub open spec fn spec_bg_pattern_base(ctrl: u8) -> u16 {
    if (ctrl / 16) % 2 == 0 {
        0
    } else {
        0x1000
    }
}

/// The two attribute bits for the tile v points at: one byte from the
/// attribute table of the current nametable, then the quadrant selected by
/// coarse X and Y.
pub open spec fn spec_attribute_fetch(p: PpuV) -> u8 {
    let attr = spec_ppu_bus_read(
        p.bus,
        (0x23C0 + spec_nametable_select(p.v) * 0x400 + (spec_coarse_y(p.v) / 4) * 8 + spec_coarse_x(
            p.v,
        ) / 4) as u16,
    );
    let quadrant = ((spec_coarse_y(p.v) % 4) / 2) * 2 + (spec_coarse_x(p.v) % 4) / 2;
    let divisor = if quadrant == 0 {
        1u8
    } else if quadrant == 1 {
        4u8
    } else if quadrant == 2 {
        16u8
    } else {
        64u8
    };
    ((attr / divisor) % 4) as u8
}

/// The bit of a 16-bit shifter selected by fine-X (bit 15 - x), as 0 or 1.
pub open spec fn spec_shifter_bit(sh: u16, x: u8) -> u16
    recommends
        x < 8,
{
    if sh & (0x8000u16 >> (x as u16)) > 0 {
        1
    } else {
        0
    }
}

/// Background pixel at the current dot: 2-bit color index from the pattern
/// shifters and 2-bit palette index from the attribute shifters.
pub open spec fn spec_bg_pixel(p: PpuV) -> (u16, u16) {
    (
        (spec_shifter_bit(p.sh_pat_lo, p.x) + 2 * spec_shifter_bit(p.sh_pat_hi, p.x)) as u16,
        (spec_shifter_bit(p.sh_at_lo, p.x) + 2 * spec_shifter_bit(p.sh_at_hi, p.x)) as u16,
    )
}

/// A framebuffer with the RGBA pixel at (x, y) replaced by the master
/// palette entry for `color` (masked to the 64-entry table; grayscale
/// keeps only the luma column bits).
pub open spec fn spec_draw_pixel(fb: Seq<u8>, grayscale: bool, x: int, y: int, color: u8) -> Seq<
    u8,
> {
    let c = if grayscale {
        (((color / 16) % 4) * 16) as u8
    } else {
        color
    };
    let rgb = spec_color((c % 64) as u8);
    let base = y * 1024 + x * 4;
    fb.update(base, rgb.0).update(base + 1, rgb.1).update(base + 2, rgb.2).update(base + 3, 0xffu8)
}

/// `s` is the OAM entry in slot `i`, flagged as sprite zero exactly for
/// slot 0.
pub open spec fn spec_sprite_is_oam_entry(oam: Seq<u8>, i: int, s: OAMSprite) -> bool {
    &&& s.spec_y() == oam[4 * i]
    &&& s.spec_tile_index() == oam[4 * i + 1]
    &&& s.spec_attributes() == oam[4 * i + 2]
    &&& s.spec_x() == oam[4 * i + 3]
    &&& s.spec_is_sprite_0() == (i == 0)
}

/// `s` is a copy of one of the 64 OAM entries.
pub open spec fn spec_sprite_from_some_oam_entry(oam: Seq<u8>, s: OAMSprite) -> bool {
    exists|i: int|
        0 <= i < 64 && #[trigger] spec_sprite_is_oam_entry(oam, i, s)
}

/// Every buffered sprite in the first `count` slots is a copy of some OAM
/// entry, with the sprite-zero mark on entries copied from slot 0.
pub open spec fn spec_sprites_from_oam(oam: Seq<u8>, sprites: Seq<OAMSprite>, count: nat) -> bool {
    forall|k: int| 0 <= k < count ==> spec_sprite_from_some_oam_entry(oam, #[trigger] sprites[k])
}

/// OAM entry `i` covers scanline `next` for sprite height `h` and is not
/// parked offscreen (raw Y of 0 or 1).
pub open spec fn spec_oam_entry_matches(oam: Seq<u8>, i: int, next: u16, h: u16) -> bool {
    &&& oam[4 * i] > 1
    &&& oam[4 * i] + 1 <= next < oam[4 * i] + 1 + h
}

/// How many of the first `n` OAM entries cover scanline `next`.
pub open spec fn spec_match_count(oam: Seq<u8>, next: u16, h: u16, n: int) -> int
    decreases n,
{
    if n <= 0 {
        0
    } else {
        spec_match_count(oam, next, h, n - 1) + (if spec_oam_entry_matches(oam, n - 1, next, h) {
            1int
        } else {
            0int
        })
    }
}

/// Scanline that the next line of sprite evaluation targets.
pub open spec fn spec_next_scanline(p: PpuV) -> u16 {
    ((p.scanline + 1) as u16 % 262) as u16
}

/// Sprite height in pixels per PPUCTRL bit 5.
pub open spec fn spec_sprite_height(ctrl: u8) -> u16 {
    if (ctrl / 32) % 2 == 1 {
        16
    } else {
        8
    }
}

/// Row within the sprite being drawn on scanline `y`, after vertical flip.
pub open spec fn spec_sprite_line(ctrl: u8, s: OAMSprite, y: u16) -> u16
    recommends
        s.spec_y() + 1 <= y < s.spec_y() + 1 + spec_sprite_height(ctrl),
{
    let line = (y - (s.spec_y() + 1)) as u16;
    if s.spec_attributes() / 128 == 1 {
        (spec_sprite_height(ctrl) - 1 - line) as u16
    } else {
        line
    }
}

/// Column within the sprite at pixel `x`, after horizontal flip.
pub open spec fn spec_sprite_col(s: OAMSprite, x: u16) -> u16
    recommends
        s.spec_x() <= x < s.spec_x() + 8,
{
    let col = (x - s.spec_x()) as u16;
    if (s.spec_attributes() / 64) % 2 == 1 {
        (7 - col) as u16
    } else {
        col
    }
}

/// Pattern table bank for a sprite: by PPUCTRL bit 3 for 8x8 sprites, by
/// bit 0 of the tile index for 8x16 sprites.
pub open spec fn spec_sprite_pattern_base(ctrl: u8, s: OAMSprite) -> u16 {
    if spec_sprite_height(ctrl) == 8 {
        if (ctrl / 8) % 2 == 0 {
            0
        } else {
            0x1000
        }
    } else {
        if s.spec_tile_index() % 2 == 1 {
            0x1000
        } else {
            0
        }
    }
}

/// Tile index for the row being drawn: 8x16 sprites use the even/odd tile
/// pair, taking the odd tile for the half selected by the row and the
/// vertical flip.
pub open spec fn spec_sprite_tile(ctrl: u8, s: OAMSprite, line: u16) -> u16 {
    let flip_v = s.spec_attributes() / 128 == 1;
    if spec_sprite_height(ctrl) == 16 && ((line >= 8 && !flip_v) || (line < 8 && flip_v)) {
        ((s.spec_tile_index() / 2) * 2 + 1) as u16
    } else {
        s.spec_tile_index() as u16
    }
}

/// 2-bit color index of one pattern-table pixel.
pub open spec fn spec_pattern_pixel(b: PPUBusV, table: u16, tile: u16, fine_y: u16, fine_x: u16) -> u8
    recommends
        fine_x < 8,
        table + tile * 16 + 8 + fine_y <= 0xffff,
{
    let lsb = spec_ppu_bus_read(b, (table + tile * 16 + fine_y) as u16);
    let msb = spec_ppu_bus_read(b, (table + tile * 16 + 8 + fine_y) as u16);
    (spec_select_bit_n(lsb, fine_x as u8) + 2 * spec_select_bit_n(msb, fine_x as u8)) as u8
}

/// Bit `n` of `x`, counted from the most significant bit.
pub open spec fn spec_select_bit_n(x: u8, n: u8) -> u8
    recommends
        n <= 7,
{
    (x / spec_pow2_u8((7 - n) as u8)) % 2
}

/// 2-bit color index of the pixel that `s` contributes at (x, y), under
/// control register `ctrl` and pattern data reachable through `b`.
pub open spec fn spec_sprite_pixel_color(ctrl: u8, b: PPUBusV, s: OAMSprite, x: u16, y: u16) -> u8 {
    let line = spec_sprite_line(ctrl, s, y);
    spec_pattern_pixel(
        b,
        spec_sprite_pattern_base(ctrl, s),
        spec_sprite_tile(ctrl, s, line),
        line % 8,
        spec_sprite_col(s, x),
    )
}

/// Some buffered sprite is a sprite-zero copy whose opaque pixel covers
/// (x, y) while the background there is opaque: the exact condition under
/// which the sprite-zero-hit flag may rise at this dot.
pub open spec fn spec_sprite_zero_hit_at(
    sprites: Seq<OAMSprite>,
    count: nat,
    ctrl: u8,
    b: PPUBusV,
    opaque: Seq<bool>,
    x: u16,
    y: u16,
) -> bool {
    exists|k: int|
        {
            let s = #[trigger] sprites[k];
            &&& 0 <= k < count
            &&& s.spec_is_sprite_0()
            &&& s.spec_x() <= x < s.spec_x() + 8
            &&& s.spec_y() > 1
            &&& s.spec_y() + 1 <= y < s.spec_y() + 1 + spec_sprite_height(ctrl)
            &&& spec_sprite_pixel_color(ctrl, b, s, x, y) != 0
            &&& opaque[y as int * 256 + x as int]
        }
}

/// The sprite-zero-hit flag may rise at the dot the pixel phase is about
/// to draw: the dot lies in the visible region, sprites are enabled, and
/// a buffered sprite-zero copy contributes an opaque pixel over an opaque
/// background there (counting the background pixel this same dot emits).
pub open spec fn spec_zero_hit_rise_now(p: PpuV) -> bool {
    let x = (p.cycle - 1) as u16;
    let y = p.scanline;
    &&& 1 <= y < 240
    &&& 1 <= p.cycle <= 256
    &&& (p.mask / 16) % 2 == 1
    &&& spec_sprite_zero_hit_at(
        p.sprites,
        p.sprite_count,
        p.ctrl,
        p.bus,
        if (p.mask / 8) % 2 == 1 && spec_bg_pixel(p).0 != 0 {
            p.opaque_bg.update(y as int * 256 + x as int, true)
        } else {
            p.opaque_bg
        },
        x,
        y,
    )
}

/// The same condition seen from the start of a whole PPU tick: the
/// background shifters still have this dot's shift ahead of them, so the
/// background pixel is read off `spec_bg_step` of the (dot-0-adjusted)
/// entry state.
pub open spec fn spec_zero_hit_rise_at(p: PpuV) -> bool {
    let pe = (PpuV {
        cycle: if p.scanline == 0 && p.cycle == 0 {
            1u16
        } else {
            p.cycle
        },
        ..p
    });
    let x = (pe.cycle - 1) as u16;
    let y = p.scanline;
    &&& 1 <= y < 240
    &&& 1 <= pe.cycle <= 256
    &&& (p.mask / 16) % 2 == 1
    &&& spec_sprite_zero_hit_at(
        p.sprites,
        p.sprite_count,
        p.ctrl,
        p.bus,
        if (p.mask / 8) % 2 == 1 && spec_bg_pixel(spec_bg_step(pe)).0 != 0 {
            p.opaque_bg.update(y as int * 256 + x as int, true)
        } else {
            p.opaque_bg
        },
        x,
        y,
    )
}

/// Lifts the pixel-phase hit condition to the start of the tick, across
/// the scanline phase that only shifted the background pipeline.
proof fn lemma_zero_hit_lift(p: PpuV, p2: PpuV)
    requires
        spec_zero_hit_rise_now(p2),
        p2.sprites == p.sprites,
        p2.sprite_count == p.sprite_count,
        p2.ctrl == p.ctrl,
        p2.bus == p.bus,
        p2.opaque_bg == p.opaque_bg,
        p2.mask == p.mask,
        p2.x == p.x,
        p2.scanline == p.scanline,
        p2.cycle == (if p.scanline == 0 && p.cycle == 0 {
            1u16
        } else {
            p.cycle
        }),
        ({
            let pe = (PpuV {
                cycle: if p.scanline == 0 && p.cycle == 0 {
                    1u16
                } else {
                    p.cycle
                },
                ..p
            });
            &&& p2.sh_pat_lo == spec_bg_step(pe).sh_pat_lo
            &&& p2.sh_pat_hi == spec_bg_step(pe).sh_pat_hi
            &&& p2.sh_at_lo == spec_bg_step(pe).sh_at_lo
            &&& p2.sh_at_hi == spec_bg_step(pe).sh_at_hi
        }),
    ensures
        spec_zero_hit_rise_at(p),
{
    let pe = (PpuV {
        cycle: if p.scanline == 0 && p.cycle == 0 {
            1u16
        } else {
            p.cycle
        },
        ..p
    });
    assert(spec_bg_step(pe).x == p.x);
    assert(spec_bg_pixel(p2) == spec_bg_pixel(spec_bg_step(pe)));
}

/// Bit `n` of `x`, counted from the most significant bit.
pub fn select_bit_n(x: u8, n: u8) -> (r: u8)
    requires
        n <= 7,
    ensures
        r == spec_select_bit_n(x, n),
        r <= 1,
{
    let p: u8 = crate::util::pow2_u8(7 - n);
    (x / p) % 2
}

pub struct Ppu {
    registers: PpuRegisters,
    ppu_bus: PPUBus,
    read_buffer: u8,
    current_scanline: u16,
    current_cycle: u16,
    had_pre_render_scanline: bool,
    screen_pixelbuffer: Vec<u8>,
    informed_frame_ready: bool,
    pub should_nmi: bool,
    oam_data: Vec<u8>,
    oam_addr: u8,
    bg_nametable_byte: u8,
    bg_attribute_byte: u8,
    bg_pattern_lsbits: u8,
    bg_pattern_msbits: u8,
    bg_shifter_pattern_lobyte: u16,
    bg_shifter_pattern_hibyte: u16,
    bg_shifter_attribute_lobyte: u16,
    bg_shifter_attribute_hibyte: u16,
    scanline_sprites: Vec<OAMSprite>,
    scanline_sprites_count: usize,
    opaque_bg_pixel_table: Vec<bool>,
    dots: Ghost<nat>,
}

impl View for Ppu {
    type V = PpuV;

    closed spec fn view(&self) -> PpuV {
        PpuV {
            ctrl: self.registers.ppu_ctrl.bits,
            mask: self.registers.ppu_mask.bits,
            status: self.registers.ppu_status.bits,
            w: self.registers.w,
            v: self.registers.v,
            t: self.registers.t,
            x: self.registers.x,
            bus: self.ppu_bus@,
            read_buffer: self.read_buffer,
            scanline: self.current_scanline,
            cycle: self.current_cycle,
            had_pre_render: self.had_pre_render_scanline,
            fb: self.screen_pixelbuffer@,
            informed_frame_ready: self.informed_frame_ready,
            should_nmi: self.should_nmi,
            oam: self.oam_data@,
            oam_addr: self.oam_addr,
            nt_byte: self.bg_nametable_byte,
            at_byte: self.bg_attribute_byte,
            pat_lo: self.bg_pattern_lsbits,
            pat_hi: self.bg_pattern_msbits,
            sh_pat_lo: self.bg_shifter_pattern_lobyte,
            sh_pat_hi: self.bg_shifter_pattern_hibyte,
            sh_at_lo: self.bg_shifter_attribute_lobyte,
            sh_at_hi: self.bg_shifter_attribute_hibyte,
            sprites: self.scanline_sprites@,
            sprite_count: self.scanline_sprites_count as nat,
            opaque_bg: self.opaque_bg_pixel_table@,
            dots: self.dots@,
        }
    }
}

/// Well-formed abstract PPU state: buffer sizes fixed by the hardware and
/// counters inside one frame.
pub open spec fn spec_ppu_wf(p: PpuV) -> bool {
    &&& crate::ppu_bus::spec_ppu_bus_wf(p.bus)
    &&& p.fb.len() == 240 * 256 * 4
    &&& p.oam.len() == 0x100
    &&& p.opaque_bg.len() == 240 * 256
    &&& p.sprites.len() == 8
    &&& p.sprite_count <= 8
    &&& p.scanline <= 261
    &&& p.cycle <= 340
    &&& p.x < 8
}

impl Ppu {
    pub open spec fn wf(self) -> bool {
        spec_ppu_wf(self@)
    }

    /// A cartridge has been attached to the PPU bus.
    pub open spec fn loaded(self) -> bool {
        self@.bus.cart is Some
    }

    pub fn new(mirroring_mode: NametableArrangement) -> (r: Self)
        ensures
            r.wf(),
            !r.loaded(),
            r@.ctrl == 0,
            r@.mask == 0,
            r@.status == 0,
            r@.w == false,
            r@.v == 0,
            r@.t == 0,
            r@.x == 0,
            r@.bus.arrangement == mirroring_mode,
            r@.scanline == 0,
            r@.cycle == 0,
            r@.had_pre_render == false,
            r@.informed_frame_ready == false,
            r@.should_nmi == false,
            r@.oam_addr == 0,
            r@.fb == Seq::new(240 * 256 * 4, |i: int| 0u8),
            r@.oam == Seq::new(0x100, |i: int| 0u8),
            r@.dots == 0,
    {
        let mut sprites: Vec<OAMSprite> = Vec::new();
        let mut k: usize = 0;
        while k < 8
            invariant
                k <= 8,
                sprites@.len() == k,
            decreases 8 - k,
        {
            sprites.push(OAMSprite::new(0, 0, 0, 0, false));
            k = k + 1;
        }
        Ppu {
            registers: PpuRegisters::new(),
            ppu_bus: PPUBus::new(mirroring_mode),
            read_buffer: 0,
            current_scanline: 0,
            current_cycle: 0,
            had_pre_render_scanline: false,
            screen_pixelbuffer: filled_u8(240 * 256 * 4, 0),
            informed_frame_ready: false,
            should_nmi: false,
            oam_data: filled_u8(0x100, 0),
            oam_addr: 0,
            bg_nametable_byte: 0,
            bg_attribute_byte: 0,
            bg_pattern_lsbits: 0,
            bg_pattern_msbits: 0,
            bg_shifter_pattern_lobyte: 0,
            bg_shifter_pattern_hibyte: 0,
            bg_shifter_attribute_lobyte: 0,
            bg_shifter_attribute_hibyte: 0,
            scanline_sprites: sprites,
            scanline_sprites_count: 0,
            opaque_bg_pixel_table: filled_bool(240 * 256, false),
            dots: Ghost(0),
        }
    }

    /// Clears the background fetch latches and shifters.
    pub fn reset(&mut self)
        ensures
            final(self)@ == (PpuV {
                nt_byte: 0,
                at_byte: 0,
                pat_lo: 0,
                pat_hi: 0,
                sh_pat_lo: 0,
                sh_pat_hi: 0,
                sh_at_lo: 0,
                sh_at_hi: 0,
                ..old(self)@
            }),
            old(self).wf() ==> final(self).wf(),
            old(self).loaded() ==> final(self).loaded(),
    {
        self.bg_nametable_byte = 0;
        self.bg_attribute_byte = 0;
        self.bg_pattern_lsbits = 0;
        self.bg_pattern_msbits = 0;
        self.bg_shifter_pattern_lobyte = 0;
        self.bg_shifter_pattern_hibyte = 0;
        self.bg_shifter_attribute_lobyte = 0;
        self.bg_shifter_attribute_hibyte = 0;
    }

    pub fn set_nametable_arrangement(&mut self, mode: NametableArrangement)
        ensures
            final(self)@ == (PpuV {
                bus: PPUBusV { arrangement: mode, ..old(self)@.bus },
                ..old(self)@
            }),
            old(self).wf() ==> final(self).wf(),
            old(self).loaded() ==> final(self).loaded(),
    {
        self.ppu_bus.set_nametable_arrangement(mode);
    }

    /// Borrowed view of the 256x240 RGBA framebuffer.
    pub fn get_pixel_buffer(&self) -> (r: &[u8])
        ensures
            r@ == self@.fb,
    {
        self.screen_pixelbuffer.as_slice()
    }

    fn call_nmi(&mut self)
        ensures
            final(self)@ == (PpuV {
                should_nmi: old(self)@.should_nmi || old(self)@.ctrl / 128 == 1,
                ..old(self)@
            }),
            old(self).wf() ==> final(self).wf(),
            old(self).loaded() ==> final(self).loaded(),
    {
        if self.registers.ppu_ctrl.vblank_nmi_enable() == 1 {
            self.should_nmi = true;
        }
    }

    /// One-shot edge: reports true exactly once per frame, on the first
    /// call made while the vblank flag is up.
    pub fn frame_ready(&mut self) -> (r: bool)
        ensures
            r == (old(self)@.status / 128 == 1 && !old(self)@.informed_frame_ready),
            final(self)@ == (PpuV {
                informed_frame_ready: old(self)@.informed_frame_ready || r,
                ..old(self)@
            }),
            old(self).wf() ==> final(self).wf(),
            old(self).loaded() ==> final(self).loaded(),
    {
        if self.registers.ppu_status.vblank() == 1 && !self.informed_frame_ready {
            self.informed_frame_ready = true;
            true
        } else {
            false
        }
    }

    pub fn set_mapper(&mut self, mapper: Mapper0)
        requires
            mapper.wf(),
        ensures
            final(self)@ == (PpuV {
                bus: PPUBusV { cart: Some(mapper@), ..old(self)@.bus },
                ..old(self)@
            }),
            old(self).wf() ==> final(self).wf(),
            final(self).loaded(),
    {
        self.ppu_bus.set_mapper(mapper);
    }

    /// Read access to the cartridge PRG window for the CPU bus.
    pub fn cartridge_cpu_read(&self, addr: u16) -> (r: u8)
        requires
            self.wf(),
            self.loaded(),
        ensures
            r == crate::mapper0::spec_cpu_map_read(self@.bus.cart->Some_0, addr),
    {
        self.ppu_bus.cartridge_cpu_read(addr)
    }

    /// CPU-side write into the cartridge PRG window; NROM drops it.
    pub fn cartridge_cpu_write(&mut self, addr: u16, data: u8)
        requires
            old(self).wf(),
            old(self).loaded(),
        ensures
            final(self)@ == old(self)@,
            final(self).wf(),
            final(self).loaded(),
    {
        self.ppu_bus.cartridge_cpu_write(addr, data);
    }

    fn is_rendering(&self) -> (r: bool)
        ensures
            r == spec_is_rendering(self@),
    {
        self.current_scanline < 240 && (self.registers.ppu_mask.show_background() == 1
            || self.registers.ppu_mask.show_sprites() == 1) && self.registers.ppu_status.vblank()
            == 0
    }

    /// Reads one PPU register; see `spec_read_register`.
    pub fn read_register(&mut self, addr: u16) -> (r: u8)
        requires
            old(self).wf(),
            old(self).loaded(),
        ensures
            (r, final(self)@) == spec_read_register(old(self)@, addr),
            final(self).wf(),
            final(self).loaded(),
    {
        if addr == PPUSTATUS {
            self.registers.w = false;
            let result: u8 = self.registers.ppu_status.into_bytes();
            self.registers.ppu_status.set_vblank(0);
            result
        } else if addr == OAMDATA {
            self.oam_data[self.oam_addr as usize]
        } else if addr == PPUDATA {
            let vaddr: u16 = self.registers.v;
            let data: u8 = self.ppu_bus.read_u8(vaddr);
            let increment: u16 = self.registers.ppu_ctrl.get_increment_value();
            self.registers.v = self.registers.v.wrapping_add(increment);
            if 0x3f00 <= vaddr && vaddr < 0x4000 {
                self.read_buffer = self.ppu_bus.read_u8(vaddr - 0x1000);
                data
            } else {
                let ret: u8 = self.read_buffer;
                self.read_buffer = data;
                ret
            }
        } else {
            0
        }
    }

    /// Writes one PPU register; see `spec_write_register`.
    pub fn write_register(&mut self, addr: u16, value: u8)
        requires
            old(self).wf(),
            old(self).loaded(),
        ensures
            final(self)@ == spec_write_register(old(self)@, addr, value),
            final(self).wf(),
            final(self).loaded(),
    {
        if addr == PPUCTRL {
            if self.had_pre_render_scanline {
                let mut new_t = ScrollRegister::from_bits(self.registers.t);
                new_t.set_nametable_select(value % 4);
                self.registers.t = new_t.into_bits();
                let old_val: PPUCtrl = self.registers.ppu_ctrl;
                self.registers.ppu_ctrl = PPUCtrl::from_bytes(value);
                if old_val.vblank_nmi_enable() == 0 && self.registers.ppu_ctrl.vblank_nmi_enable()
                    == 1 && self.registers.ppu_status.vblank() == 1 {
                    self.call_nmi();
                }
            }
        } else if addr == PPUMASK {
            if self.had_pre_render_scanline {
                self.registers.ppu_mask = PPUMask::from_bytes(value);
            }
        } else if addr == OAMADDR {
            self.oam_addr = value;
        } else if addr == OAMDATA {
            if !self.is_rendering() {
                self.oam_data.set(self.oam_addr as usize, value);
                self.oam_addr = self.oam_addr.wrapping_add(1);
            }
        } else if addr == PPUSCROLL {
            let mut new_t = ScrollRegister::from_bits(self.registers.t);
            if !self.registers.w {
                new_t.set_coarse_x(value / 8);
                self.registers.x = value % 8;
            } else {
                new_t.set_coarse_y(value / 8);
                new_t.set_fine_y(value % 8);
            }
            self.registers.w = !self.registers.w;
            self.registers.t = new_t.into_bits();
        } else if addr == PPUADDR {
            if !self.registers.w {
                self.registers.t = self.registers.t % 0x100 + (value % 0x40) as u16 * 0x100;
            } else {
                self.registers.t = (self.registers.t / 0x100) * 0x100 + value as u16;
                self.registers.v = self.registers.t;
            }
            self.registers.w = !self.registers.w;
        } else if addr == PPUDATA {
            let vaddr: u16 = self.registers.v;
            self.ppu_bus.write_u8(vaddr, value);
            let increment: u16 = self.registers.ppu_ctrl.get_increment_value();
            self.registers.v = self.registers.v.wrapping_add(increment);
        }
    }

    fn increment_scroll_x(&mut self)
        ensures
            final(self)@ == (PpuV { v: spec_increment_scroll_x(old(self)@.v), ..old(self)@ }),
            old(self).wf() ==> final(self).wf(),
            old(self).loaded() ==> final(self).loaded(),
    {
        let mut v = ScrollRegister::from_bits(self.registers.v);
        let cx: u8 = v.coarse_x();
        if cx == 31 {
            v.set_coarse_x(0);
            let n: u8 = v.nametable_select();
            v.set_nametable_select(if n % 2 == 0 { n + 1 } else { n - 1 });
        } else {
            v.set_coarse_x(cx + 1);
        }
        self.registers.v = v.into_bits();
    }

    fn increment_scroll_y(&mut self)
        ensures
            final(self)@ == (PpuV { v: spec_increment_scroll_y(old(self)@.v), ..old(self)@ }),
            old(self).wf() ==> final(self).wf(),
            old(self).loaded() ==> final(self).loaded(),
    {
        let mut v = ScrollRegister::from_bits(self.registers.v);
        let fy: u8 = v.fine_y();
        if fy < 7 {
            v.set_fine_y(fy + 1);
        } else {
            v.set_fine_y(0);
            let cy: u8 = v.coarse_y();
            if cy == 29 {
                v.set_coarse_y(0);
                let n: u8 = v.nametable_select();
                v.set_nametable_select(if (n / 2) % 2 == 0 { n + 2 } else { n - 2 });
            } else if cy == 31 {
                v.set_coarse_y(0);
            } else {
                v.set_coarse_y(cy + 1);
            }
        }
        self.registers.v = v.into_bits();
    }

    fn transfer_address_x(&mut self)
        ensures
            final(self)@ == (PpuV {
                v: spec_copy_horizontal(old(self)@.v, old(self)@.t),
                ..old(self)@
            }),
            old(self).wf() ==> final(self).wf(),
            old(self).loaded() ==> final(self).loaded(),
    {
        let t = ScrollRegister::from_bits(self.registers.t);
        let mut v = ScrollRegister::from_bits(self.registers.v);
        v.set_coarse_x(t.coarse_x());
        let nv: u8 = v.nametable_select();
        v.set_nametable_select((nv / 2) * 2 + t.nametable_select() % 2);
        self.registers.v = v.into_bits();
    }

    fn transfer_address_y(&mut self)
        ensures
            final(self)@ == (PpuV {
                v: spec_copy_vertical(old(self)@.v, old(self)@.t),
                ..old(self)@
            }),
            old(self).wf() ==> final(self).wf(),
            old(self).loaded() ==> final(self).loaded(),
    {
        let t = ScrollRegister::from_bits(self.registers.t);
        let mut v = ScrollRegister::from_bits(self.registers.v);
        v.set_coarse_y(t.coarse_y());
        v.set_fine_y(t.fine_y());
        let nv: u8 = v.nametable_select();
        v.set_nametable_select(nv % 2 + (t.nametable_select() / 2) * 2);
        self.registers.v = v.into_bits();
    }

    /// Advances the shifters one dot and runs the fetch phase that
    /// (cycle - 1) mod 8 selects: nametable byte, attribute bits, the two
    /// pattern bytes, or the coarse-X increment with shifter reload.
    fn background_pipeline_step(&mut self)
        requires
            old(self).wf(),
            old(self).loaded(),
            1 <= old(self)@.cycle,
        ensures
            final(self)@ == spec_bg_step(old(self)@),
            final(self).wf(),
            final(self).loaded(),
    {
        self.bg_shifter_pattern_lobyte = self.bg_shifter_pattern_lobyte.wrapping_mul(2);
        self.bg_shifter_pattern_hibyte = self.bg_shifter_pattern_hibyte.wrapping_mul(2);
        self.bg_shifter_attribute_lobyte = self.bg_shifter_attribute_lobyte.wrapping_mul(2);
        self.bg_shifter_attribute_hibyte = self.bg_shifter_attribute_hibyte.wrapping_mul(2);

        let v: u16 = self.registers.v;
        let parsed_v = ScrollRegister::from_bits(v);
        let phase: u16 = (self.current_cycle - 1) % 8;
        if phase == 0 {
            self.bg_nametable_byte = self.ppu_bus.read_u8(0x2000 + v % 0x1000);
        } else if phase == 2 {
            let quadrant: u8 = ((parsed_v.coarse_y() % 4) / 2) * 2 + (parsed_v.coarse_x() % 4) / 2;
            let attribute_byte: u8 = self.ppu_bus.read_u8(
                0x23C0 + (parsed_v.nametable_select() as u16) * 0x400 + ((parsed_v.coarse_y()
                    / 4) as u16) * 8 + (parsed_v.coarse_x() / 4) as u16,
            );
            let divisor: u8 = if quadrant == 0 {
                1
            } else if quadrant == 1 {
                4
            } else if quadrant == 2 {
                16
            } else {
                64
            };
            self.bg_attribute_byte = (attribute_byte / divisor) % 4;
        } else if phase == 4 {
            let addr: u16 = self.registers.ppu_ctrl.get_background_pattern_table_address()
                + (self.bg_nametable_byte as u16) * 16 + parsed_v.fine_y() as u16;
            self.bg_pattern_lsbits = self.ppu_bus.read_u8(addr);
        } else if phase == 6 {
            let addr: u16 = self.registers.ppu_ctrl.get_background_pattern_table_address()
                + (self.bg_nametable_byte as u16) * 16 + 8 + parsed_v.fine_y() as u16;
            self.bg_pattern_msbits = self.ppu_bus.read_u8(addr);
        } else if phase == 7 {
            self.increment_scroll_x();
            self.bg_shifter_pattern_lobyte = (self.bg_shifter_pattern_lobyte / 256) * 256
                + self.bg_pattern_lsbits as u16;
            self.bg_shifter_pattern_hibyte = (self.bg_shifter_pattern_hibyte / 256) * 256
                + self.bg_pattern_msbits as u16;
            self.bg_shifter_attribute_lobyte = (self.bg_shifter_attribute_lobyte / 256) * 256 + (
            if self.bg_attribute_byte % 2 == 1 {
                0xffu16
            } else {
                0u16
            });
            self.bg_shifter_attribute_hibyte = (self.bg_shifter_attribute_hibyte / 256) * 256 + (
            if (self.bg_attribute_byte / 2) % 2 == 1 {
                0xffu16
            } else {
                0u16
            });
        }
    }

    /// Writes the RGBA bytes of the master palette entry `color` at pixel
    /// (x, y), honoring the grayscale bit of PPUMASK.
    fn draw_pixel(&mut self, current_pixel_x: u16, current_pixel_y: u16, color: u8)
        requires
            old(self).wf(),
            current_pixel_x < 256,
            current_pixel_y < 240,
        ensures
            final(self)@ == (PpuV {
                fb: spec_draw_pixel(
                    old(self)@.fb,
                    old(self)@.mask % 2 == 1,
                    current_pixel_x as int,
                    current_pixel_y as int,
                    color,
                ),
                ..old(self)@
            }),
            final(self).wf(),
            old(self).loaded() ==> final(self).loaded(),
    {
        let masked: u8 = if self.registers.ppu_mask.grayscale() == 1 {
            ((color / 16) % 4) * 16
        } else {
            color
        };
        let rgb: (u8, u8, u8) = color_rgb(masked % 64);
        let base: usize = current_pixel_y as usize * 1024 + current_pixel_x as usize * 4;
        self.screen_pixelbuffer.set(base, rgb.0);
        self.screen_pixelbuffer.set(base + 1, rgb.1);
        self.screen_pixelbuffer.set(base + 2, rgb.2);
        self.screen_pixelbuffer.set(base + 3, 0xff);
    }

    /// Emits the background pixel for the current dot: selects the shifter
    /// bits by fine-X, records background opacity, and paints the palette
    /// color (the universal backdrop when the color index is 0).
    fn emit_background_pixel(&mut self)
        requires
            old(self).wf(),
            old(self).loaded(),
            old(self)@.scanline < 240,
            1 <= old(self)@.cycle <= 256,
        ensures
            final(self).wf(),
            final(self).loaded(),
            ({
                let p = old(self)@;
                let x = p.cycle - 1;
                let y = p.scanline as int;
                let pix = spec_bg_pixel(p);
                let color = if pix.0 != 0 {
                    spec_ppu_bus_read(p.bus, (0x3F00 + pix.1 * 4 + pix.0) as u16)
                } else {
                    spec_ppu_bus_read(p.bus, 0x3F00)
                };
                final(self)@ == (PpuV {
                    opaque_bg: if pix.0 != 0 {
                        p.opaque_bg.update(y * 256 + x, true)
                    } else {
                        p.opaque_bg
                    },
                    fb: spec_draw_pixel(p.fb, p.mask % 2 == 1, x as int, y, color),
                    ..p
                })
            }),
    {
        let x: u16 = self.registers.x as u16;
        let lo: u16 = if self.bg_shifter_pattern_lobyte & (0x8000u16 >> x) > 0 {
            1
        } else {
            0
        };
        let hi: u16 = if self.bg_shifter_pattern_hibyte & (0x8000u16 >> x) > 0 {
            1
        } else {
            0
        };
        let pixel_color: u16 = lo + 2 * hi;
        let alo: u16 = if self.bg_shifter_attribute_lobyte & (0x8000u16 >> x) > 0 {
            1
        } else {
            0
        };
        let ahi: u16 = if self.bg_shifter_attribute_hibyte & (0x8000u16 >> x) > 0 {
            1
        } else {
            0
        };
        let pallette_index: u16 = alo + 2 * ahi;
        let color: u8 = if pixel_color != 0 {
            let slot: usize = self.current_scanline as usize * 256 + (self.current_cycle
                - 1) as usize;
            self.opaque_bg_pixel_table.set(slot, true);
            self.ppu_bus.read_u8(PALLETTE_TABLE_START + pallette_index * 4 + pixel_color)
        } else {
            self.ppu_bus.read_u8(PALLETTE_TABLE_START)
        };
        let px: u16 = self.current_cycle - 1;
        let py: u16 = self.current_scanline;
        self.draw_pixel(px, py, color);
    }

    /// Scans all 64 OAM entries for sprites that cover the next scanline,
    /// keeping the first eight in OAM order and flagging sprite overflow
    /// exactly when a ninth entry would match. Entries with raw Y of 0 or
    /// 1 are treated as parked offscreen.
    fn do_sprite_evaluation(&mut self)
        requires
            old(self).wf(),
            old(self).loaded(),
        ensures
            final(self).wf(),
            final(self).loaded(),
            final(self)@ == (PpuV {
                status: final(self)@.status,
                sprites: final(self)@.sprites,
                sprite_count: final(self)@.sprite_count,
                ..old(self)@
            }),
            final(self)@.sprite_count <= 8,
            forall|k: int|
                0 <= k < final(self)@.sprite_count ==> {
                    let s = #[trigger] final(self)@.sprites[k];
                    &&& s.spec_y() > 1
                    &&& s.spec_y() + 1 <= spec_next_scanline(old(self)@) < s.spec_y() + 1
                        + spec_sprite_height(old(self)@.ctrl)
                },
            spec_sprites_from_oam(old(self)@.oam, final(self)@.sprites, final(self)@.sprite_count),
            final(self)@.status % 32 == old(self)@.status % 32,
            final(self)@.status / 64 == old(self)@.status / 64,
            ({
                let m = spec_match_count(
                    old(self)@.oam,
                    spec_next_scanline(old(self)@),
                    spec_sprite_height(old(self)@.ctrl),
                    64,
                );
                &&& final(self)@.sprite_count as int == (if m <= 8 {
                    m
                } else {
                    8int
                })
                &&& ((final(self)@.status / 32) % 2 == 1) == ((old(self)@.status / 32) % 2 == 1 || m
                    > 8)
            }),
    {
        self.scanline_sprites_count = 0;
        let next_scanline: u16 = (self.current_scanline + 1) % 262;
        let sprite_height: u16 = self.registers.ppu_ctrl.get_sprite_height() as u16;
        let mut i: usize = 0;
        while i < 64
            invariant
                i <= 64,
                self.wf(),
                self.loaded(),
                self@ == (PpuV {
                    status: self@.status,
                    sprites: self@.sprites,
                    sprite_count: self@.sprite_count,
                    ..old(self)@
                }),
                self@.sprite_count <= 8,
                next_scanline == spec_next_scanline(old(self)@),
                sprite_height == spec_sprite_height(old(self)@.ctrl),
                forall|k: int|
                    0 <= k < self@.sprite_count ==> {
                        let s = #[trigger] self@.sprites[k];
                        &&& s.spec_y() > 1
                        &&& s.spec_y() + 1 <= spec_next_scanline(old(self)@) < s.spec_y() + 1
                            + spec_sprite_height(old(self)@.ctrl)
                    },
                spec_sprites_from_oam(old(self)@.oam, self@.sprites, self@.sprite_count),
                self@.status % 32 == old(self)@.status % 32,
                self@.status / 64 == old(self)@.status / 64,
                ({
                    let m = spec_match_count(
                        old(self)@.oam,
                        spec_next_scanline(old(self)@),
                        spec_sprite_height(old(self)@.ctrl),
                        i as int,
                    );
                    &&& self@.sprite_count as int == (if m <= 8 {
                        m
                    } else {
                        8int
                    })
                    &&& ((self@.status / 32) % 2 == 1) == ((old(self)@.status / 32) % 2 == 1 || m
                        > 8)
                }),
            decreases 64 - i,
        {
            let ghost pre = self@;
            let y: u8 = self.oam_data[4 * i];
            let tile: u8 = self.oam_data[4 * i + 1];
            let attributes: u8 = self.oam_data[4 * i + 2];
            let x: u8 = self.oam_data[4 * i + 3];
            let sprite = OAMSprite::new(y, tile, attributes, x, i == 0);
            let rendered_y: u16 = sprite.get_rendered_y();
            let matched: bool = rendered_y <= next_scanline && next_scanline < rendered_y
                + sprite_height && sprite.get_y() > 1;
            if matched && self.scanline_sprites_count >= 8 {
                self.registers.ppu_status.set_sprite_overflow(1);
            }
            if matched && self.scanline_sprites_count < 8 {
                self.scanline_sprites.set(self.scanline_sprites_count, sprite);
                self.scanline_sprites_count = self.scanline_sprites_count + 1;
                proof {
                    assert(spec_sprite_is_oam_entry(old(self)@.oam, i as int, sprite));
                    assert(spec_sprite_from_some_oam_entry(old(self)@.oam, sprite));
                    assert forall|k: int|
                        0 <= k < self@.sprite_count implies spec_sprite_from_some_oam_entry(
                        old(self)@.oam,
                        #[trigger] self@.sprites[k],
                    ) by {
                        if k < pre.sprite_count {
                            assert(self@.sprites[k] == pre.sprites[k]);
                            assert(spec_sprite_from_some_oam_entry(old(self)@.oam, pre.sprites[k]));
                        } else {
                            assert(self@.sprites[k] == sprite);
                        }
                    }
                }
            }
            i = i + 1;
        }
    }

    /// Renders the sprite layer contribution at (x, y): the buffered
    /// sprites are walked in OAM order and the first one contributing an
    /// opaque pixel wins; stale buffer entries that do not cover this
    /// scanline are skipped. The sprite-zero-hit flag can rise here only
    /// when `spec_sprite_zero_hit_at` holds of this dot.
    fn render_sprites(&mut self, current_pixel_x: u16, current_pixel_y: u16)
        requires
            old(self).wf(),
            old(self).loaded(),
            old(self)@.scanline == current_pixel_y,
            current_pixel_y < 240,
            current_pixel_x < 256,
        ensures
            final(self).wf(),
            final(self).loaded(),
            final(self)@ == (PpuV {
                status: final(self)@.status,
                fb: final(self)@.fb,
                ..old(self)@
            }),
            final(self)@.status % 64 == old(self)@.status % 64,
            final(self)@.status / 128 == old(self)@.status / 128,
            (old(self)@.status / 64) % 2 == 1 ==> (final(self)@.status / 64) % 2 == 1,
            ((final(self)@.status / 64) % 2 == 1 && (old(self)@.status / 64) % 2 == 0
                ==> spec_sprite_zero_hit_at(
                old(self)@.sprites,
                old(self)@.sprite_count,
                old(self)@.ctrl,
                old(self)@.bus,
                old(self)@.opaque_bg,
                current_pixel_x,
                current_pixel_y,
            )),
    {
        let count: usize = self.scanline_sprites_count;
        let mut i: usize = 0;
        while i < count
            invariant
                old(self).wf(),
                count <= 8,
                self.wf(),
                self.loaded(),
                self@.scanline == current_pixel_y,
                current_pixel_y < 240,
                current_pixel_x < 256,
                count == self@.sprite_count,
                self@ == (PpuV { status: self@.status, fb: self@.fb, ..old(self)@ }),
                self@.status % 64 == old(self)@.status % 64,
                self@.status / 128 == old(self)@.status / 128,
                (old(self)@.status / 64) % 2 == 1 ==> (self@.status / 64) % 2 == 1,
                ((self@.status / 64) % 2 == 1 && (old(self)@.status / 64) % 2 == 0
                    ==> spec_sprite_zero_hit_at(
                    old(self)@.sprites,
                    old(self)@.sprite_count,
                    old(self)@.ctrl,
                    old(self)@.bus,
                    old(self)@.opaque_bg,
                    current_pixel_x,
                    current_pixel_y,
                )),
            decreases count - i,
        {
            let sprite: OAMSprite = self.scanline_sprites[i];
            let x: u16 = sprite.get_x() as u16;
            if current_pixel_x >= x && current_pixel_x < x + 8 {
                let rendered_y: u16 = sprite.get_rendered_y();
                let height: u16 = self.registers.ppu_ctrl.get_sprite_height() as u16;
                if sprite.get_y() > 1 && rendered_y <= current_pixel_y && current_pixel_y
                    < rendered_y + height {
                    let ghost st_pre = self@.status;
                    let opaque_pixel: bool = self.render_sprite(
                        current_pixel_x,
                        current_pixel_y,
                        sprite,
                    );
                    proof {
                        if (self@.status / 64) % 2 == 1 && (st_pre / 64) % 2 == 0 {
                            assert(old(self)@.sprites[i as int] == sprite);
                            assert(spec_sprite_zero_hit_at(
                                old(self)@.sprites,
                                old(self)@.sprite_count,
                                old(self)@.ctrl,
                                old(self)@.bus,
                                old(self)@.opaque_bg,
                                current_pixel_x,
                                current_pixel_y,
                            ));
                        }
                    }
                    if opaque_pixel {
                        break ;
                    }
                }
            }
            i = i + 1;
        }
    }

    /// Draws one sprite's pixel at (x, y): fetches the pattern bits for the
    /// flip-adjusted row and column, detects the sprite-zero hit against
    /// the background opacity map, and paints the sprite palette color when
    /// the sprite wins priority arbitration.
    #[verifier::rlimit(100)]
    fn render_sprite(&mut self, current_pixel_x: u16, current_pixel_y: u16, sprite: OAMSprite) -> (r:
        bool)
        requires
            old(self).wf(),
            old(self).loaded(),
            old(self)@.scanline == current_pixel_y,
            current_pixel_y < 240,
            current_pixel_x < 256,
            sprite.spec_x() <= current_pixel_x < sprite.spec_x() + 8,
            sprite.spec_y() > 1,
            sprite.spec_y() + 1 <= current_pixel_y < sprite.spec_y() + 1 + spec_sprite_height(
                old(self)@.ctrl,
            ),
        ensures
            final(self).wf(),
            final(self).loaded(),
            ({
                let p = old(self)@;
                let pc = spec_sprite_pixel_color(
                    p.ctrl,
                    p.bus,
                    sprite,
                    current_pixel_x,
                    current_pixel_y,
                );
                let r_is = (r == (pc != 0));
                let opaque = p.opaque_bg[current_pixel_y as int * 256 + current_pixel_x as int];
                let hit = sprite.spec_is_sprite_0() && opaque && pc != 0;
                let drawn = pc != 0 && ((sprite.spec_attributes() / 32) % 2 == 0 || !opaque);
                let color = spec_ppu_bus_read(
                    p.bus,
                    (0x3F10 + (sprite.spec_attributes() % 4) as u16 * 4 + pc) as u16,
                );
                &&& r_is
                &&& final(self)@ == (PpuV {
                    status: if hit {
                        (p.status % 64 + 64 + (p.status / 128) * 128) as u8
                    } else {
                        p.status
                    },
                    fb: if drawn {
                        spec_draw_pixel(
                            p.fb,
                            p.mask % 2 == 1,
                            current_pixel_x as int,
                            current_pixel_y as int,
                            color,
                        )
                    } else {
                        p.fb
                    },
                    ..p
                })
            }),
    {
        let height: u8 = self.registers.ppu_ctrl.get_sprite_height();
        let mut current_sprite_line: u16 = current_pixel_y - (sprite.get_y() as u16 + 1);
        if sprite.get_attributes().flip_vertical() == 1 {
            current_sprite_line = height as u16 - 1 - current_sprite_line;
        }
        let mut current_sprite_x: u16 = current_pixel_x - sprite.get_x() as u16;
        if sprite.get_attributes().flip_horizontal() == 1 {
            current_sprite_x = 7 - current_sprite_x;
        }
        let pallette_table: u16 = PALLETTE_TABLE_START + 0x10 + (sprite.get_attributes().pallette()
            as u16) * 4;
        let pattern_table: u16 = if height == 8 {
            self.registers.ppu_ctrl.get_sprite_pattern_table_address()
        } else {
            if sprite.get_tile_index() % 2 == 1 {
                0x1000
            } else {
                0
            }
        };
        let flip_v: bool = sprite.get_attributes().flip_vertical() == 1;
        let tile_index: u16 = if height == 16 && ((current_sprite_line >= 8 && !flip_v) || (
        current_sprite_line < 8 && flip_v)) {
            (sprite.get_tile_index() / 2) as u16 * 2 + 1
        } else {
            sprite.get_tile_index() as u16
        };
        let current_tile_y: u16 = current_sprite_line % 8;
        let current_tile_x: u16 = current_sprite_x;
        let pixel_color: u8 = self.get_pattern_pixel(
            pattern_table,
            tile_index,
            current_tile_y,
            current_tile_x,
        );
        let opaque: bool = self.opaque_bg_pixel_table[current_pixel_y as usize * 256
            + current_pixel_x as usize];
        if sprite.is_sprite_0() && opaque && pixel_color != 0 {
            self.registers.ppu_status.set_sprite_zero_hit(1);
        }
        if pixel_color != 0 && (sprite.get_attributes().priority() == 0 || !opaque) {
            let pallette_value: u8 = self.get_pallette_value(pallette_table, pixel_color as u16);
            self.draw_pixel(current_pixel_x, current_pixel_y, pallette_value);
        }
        pixel_color != 0
    }

    /// Palette byte for a sprite pixel: index 0 is the universal backdrop.
    fn get_pallette_value(&self, pallette_table_address: u16, pallette_index: u16) -> (r: u8)
        requires
            self.wf(),
            self.loaded(),
            pallette_table_address + pallette_index <= 0xffff,
        ensures
            r == (if pallette_index == 0 {
                spec_ppu_bus_read(self@.bus, 0x3F00)
            } else {
                spec_ppu_bus_read(self@.bus, (pallette_table_address + pallette_index) as u16)
            }),
    {
        if pallette_index == 0 {
            self.ppu_bus.read_u8(PALLETTE_TABLE_START)
        } else {
            self.ppu_bus.read_u8(pallette_table_address + pallette_index)
        }
    }

    /// 2-bit color index of one pattern-table pixel.
    fn get_pattern_pixel(&self, pattern_table: u16, tile_index: u16, fine_y: u16, fine_x: u16) -> (r:
        u8)
        requires
            self.wf(),
            self.loaded(),
            pattern_table <= 0x1000,
            tile_index < 256,
            fine_y < 8,
            fine_x < 8,
        ensures
            r == spec_pattern_pixel(self@.bus, pattern_table, tile_index, fine_y, fine_x),
            r <= 3,
    {
        let pattern_lsb_address: u16 = pattern_table + tile_index * 16 + fine_y;
        let pattern_msb_address: u16 = pattern_table + tile_index * 16 + 8 + fine_y;
        let pattern_byte_lsb: u8 = self.ppu_bus.read_u8(pattern_lsb_address);
        let pattern_byte_msb: u8 = self.ppu_bus.read_u8(pattern_msb_address);
        let current_pixel_color_lsb: u8 = select_bit_n(pattern_byte_lsb, fine_x as u8);
        let current_pixel_color_msb: u8 = select_bit_n(pattern_byte_msb, fine_x as u8);
        current_pixel_color_lsb + (current_pixel_color_msb * 2)
    }

    /// The pending-NMI line toward the CPU.
    pub fn get_should_nmi(&self) -> (r: bool)
        ensures
            r == self@.should_nmi,
    {
        self.should_nmi
    }

    /// Acknowledges the pending NMI.
    pub fn clear_should_nmi(&mut self)
        ensures
            final(self)@ == (PpuV { should_nmi: false, ..old(self)@ }),
            old(self).wf() ==> final(self).wf(),
            old(self).loaded() ==> final(self).loaded(),
    {
        self.should_nmi = false;
    }

    /// Current scanline, 0-261.
    pub fn scanline(&self) -> (r: u16)
        ensures
            r == self@.scanline,
    {
        self.current_scanline
    }

    /// Current dot within the scanline, 0-340.
    pub fn cycle(&self) -> (r: u16)
        ensures
            r == self@.cycle,
    {
        self.current_cycle
    }

    /// The raw PPUSTATUS bits, without the side effects of a register read.
    pub fn status_bits(&self) -> (r: u8)
        ensures
            r == self@.status,
    {
        self.registers.ppu_status.into_bytes()
    }

    /// Everything a dot does on the scanline state machine besides pixel
    /// output: sprite evaluation at dot 320, the vblank and pre-render
    /// status edges, the scroll-register transfers, and the background
    /// fetch pipeline.
    #[verifier::rlimit(100)]
    fn tick_scanline_ops(&mut self)
        requires
            old(self).wf(),
            old(self).loaded(),
        ensures
            final(self).wf(),
            final(self).loaded(),
            ({
                let p = old(self)@;
                let q = final(self)@;
                &&& q.scanline == p.scanline
                &&& q.cycle == p.cycle
                &&& q.dots == p.dots
                &&& q.ctrl == p.ctrl
                &&& q.mask == p.mask
                &&& q.t == p.t
                &&& q.x == p.x
                &&& q.w == p.w
                &&& q.bus == p.bus
                &&& q.oam == p.oam
                &&& q.oam_addr == p.oam_addr
                &&& q.read_buffer == p.read_buffer
                &&& q.informed_frame_ready == p.informed_frame_ready
                &&& q.fb == p.fb
                &&& q.opaque_bg == p.opaque_bg
                &&& (p.scanline == 241 && p.cycle == 1 ==> q.status / 128 == 1)
                &&& q.should_nmi == (p.should_nmi || (p.scanline == 241 && p.cycle == 1 && p.ctrl
                    / 128 == 1))
                &&& (p.scanline == 261 && p.cycle == 1 ==> q.status / 32 == 0)
                &&& q.had_pre_render == (p.had_pre_render || (p.scanline == 261 && p.cycle == 1))
                &&& (!(p.scanline == 241 && p.cycle == 1) && !(p.scanline == 261 && p.cycle == 1)
                    ==> q.status / 128 == p.status / 128)
                &&& q.status % 32 == p.status % 32
                &&& ((p.status / 64) % 2 == 1 && !(p.scanline == 261 && p.cycle == 1) ==> (
                q.status / 64) % 2 == 1)
                &&& ((q.status / 64) % 2 == 1 ==> (p.status / 64) % 2 == 1)
                &&& (p.cycle != 320 ==> q.sprites == p.sprites && q.sprite_count == p.sprite_count)
                &&& (!spec_rendering_enabled(p) ==> q.v == p.v && q.sh_pat_lo == p.sh_pat_lo
                    && q.sh_pat_hi == p.sh_pat_hi && q.sh_at_lo == p.sh_at_lo && q.sh_at_hi
                    == p.sh_at_hi && q.nt_byte == p.nt_byte && q.at_byte == p.at_byte && q.pat_lo
                    == p.pat_lo && q.pat_hi == p.pat_hi && q.sprites == p.sprites && q.sprite_count
                    == p.sprite_count)
                &&& (240 <= p.scanline <= 260 ==> q.v == p.v && q.sh_pat_lo == p.sh_pat_lo
                    && q.sh_pat_hi == p.sh_pat_hi && q.sh_at_lo == p.sh_at_lo && q.sh_at_hi
                    == p.sh_at_hi && q.nt_byte == p.nt_byte && q.at_byte == p.at_byte && q.pat_lo
                    == p.pat_lo && q.pat_hi == p.pat_hi && q.sprites == p.sprites && q.sprite_count
                    == p.sprite_count)
                &&& (spec_rendering_enabled(p) && (p.scanline <= 239 || p.scanline == 261) ==> {
                    &&& (p.cycle == 256 ==> q.v == spec_increment_scroll_y(
                        spec_increment_scroll_x(p.v),
                    ))
                    &&& (p.cycle == 257 ==> q.v == spec_copy_horizontal(p.v, p.t))
                    &&& (p.scanline == 261 && 280 <= p.cycle <= 304 ==> q.v == spec_copy_vertical(
                        p.v,
                        p.t,
                    ))
                    &&& ((1 <= p.cycle <= 256 || 321 <= p.cycle <= 336) ==> {
                        let b = spec_bg_step(p);
                        &&& q.nt_byte == b.nt_byte
                        &&& q.at_byte == b.at_byte
                        &&& q.pat_lo == b.pat_lo
                        &&& q.pat_hi == b.pat_hi
                        &&& q.sh_pat_lo == b.sh_pat_lo
                        &&& q.sh_pat_hi == b.sh_pat_hi
                        &&& q.sh_at_lo == b.sh_at_lo
                        &&& q.sh_at_hi == b.sh_at_hi
                        &&& (p.cycle != 256 && p.cycle != 257 ==> q.v == b.v)
                    })
                })
            }),
    {
        self.tick_flag_edges();
        let rendering_enabled: bool = self.registers.ppu_mask.show_background() == 1
            || self.registers.ppu_mask.show_sprites() == 1;
        if self.current_scanline <= 239 || self.current_scanline == 261 {
            if self.current_scanline == 261 && 280 <= self.current_cycle && self.current_cycle
                <= 304 && rendering_enabled {
                self.transfer_address_y();
            }
            if ((1 <= self.current_cycle && self.current_cycle <= 256) || (321
                <= self.current_cycle && self.current_cycle <= 336)) && rendering_enabled {
                self.background_pipeline_step();
            }
            if rendering_enabled {
                if self.current_cycle == 256 {
                    self.increment_scroll_y();
                } else if self.current_cycle == 257 {
                    self.transfer_address_x();
                }
            }
        }
    }

    /// The status-register edges of a dot, plus sprite evaluation: vblank
    /// is raised at scanline 241 dot 1 (with the NMI when enabled), the
    /// vblank/hit/overflow flags fall at the pre-render dot 261/1, and dot
    /// 320 of a non-idle scanline evaluates the sprites for the next one.
    #[verifier::rlimit(100)]
    fn tick_flag_edges(&mut self)
        requires
            old(self).wf(),
            old(self).loaded(),
        ensures
            final(self).wf(),
            final(self).loaded(),
            ({
                let p = old(self)@;
                let q = final(self)@;
                &&& q == (PpuV {
                    status: q.status,
                    should_nmi: q.should_nmi,
                    had_pre_render: q.had_pre_render,
                    sprites: q.sprites,
                    sprite_count: q.sprite_count,
                    ..p
                })
                &&& (p.scanline == 241 && p.cycle == 1 ==> q.status / 128 == 1)
                &&& q.should_nmi == (p.should_nmi || (p.scanline == 241 && p.cycle == 1 && p.ctrl
                    / 128 == 1))
                &&& (p.scanline == 261 && p.cycle == 1 ==> q.status / 32 == 0)
                &&& q.had_pre_render == (p.had_pre_render || (p.scanline == 261 && p.cycle == 1))
                &&& (!(p.scanline == 241 && p.cycle == 1) && !(p.scanline == 261 && p.cycle == 1)
                    ==> q.status / 128 == p.status / 128)
                &&& q.status % 32 == p.status % 32
                &&& ((p.status / 64) % 2 == 1 && !(p.scanline == 261 && p.cycle == 1) ==> (
                q.status / 64) % 2 == 1)
                &&& ((q.status / 64) % 2 == 1 ==> (p.status / 64) % 2 == 1)
                &&& (!(spec_rendering_enabled(p) && p.cycle == 320 && (p.scanline <= 239
                    || p.scanline == 261)) ==> q.sprites == p.sprites && q.sprite_count
                    == p.sprite_count)
            }),
    {
        let rendering_enabled: bool = self.registers.ppu_mask.show_background() == 1
            || self.registers.ppu_mask.show_sprites() == 1;
        if self.current_scanline <= 239 || self.current_scanline == 261 {
            if rendering_enabled && self.current_cycle == 320 {
                self.do_sprite_evaluation();
            }
            if self.current_scanline == 261 && self.current_cycle == 1 {
                self.registers.ppu_status.set_vblank(0);
                self.registers.ppu_status.set_sprite_zero_hit(0);
                self.registers.ppu_status.set_sprite_overflow(0);
                self.had_pre_render_scanline = true;
            }
        } else if self.current_scanline == 241 {
            if self.current_cycle == 1 {
                self.registers.ppu_status.set_vblank(1);
                if self.registers.ppu_ctrl.vblank_nmi_enable() == 1 {
                    self.call_nmi();
                }
            }
        }
    }

    /// Pixel output for the current dot, when it lies in the visible
    /// region: the background pixel, then the sprite layer on top.
    #[verifier::rlimit(100)]
    fn tick_pixel_ops(&mut self)
        requires
            old(self).wf(),
            old(self).loaded(),
        ensures
            final(self).wf(),
            final(self).loaded(),
            ({
                let p = old(self)@;
                let q = final(self)@;
                &&& q == (PpuV { status: q.status, fb: q.fb, opaque_bg: q.opaque_bg, ..p })
                &&& q.status % 64 == p.status % 64
                &&& q.status / 128 == p.status / 128
                &&& ((p.status / 64) % 2 == 1 ==> (q.status / 64) % 2 == 1)
                &&& (!spec_rendering_enabled(p) ==> q == p)
                &&& (p.scanline >= 240 ==> q == p)
                &&& ((q.status / 64) % 2 == 1 && (p.status / 64) % 2 == 0
                    ==> spec_zero_hit_rise_now(p))
            }),
    {
        if self.current_cycle >= 1 && self.current_scanline < 240 && self.current_cycle <= 256 {
            if self.registers.ppu_mask.show_background() == 1 {
                self.emit_background_pixel();
            }
            if self.registers.ppu_mask.show_sprites() == 1 && self.current_scanline >= 1 {
                let px: u16 = self.current_cycle - 1;
                let py: u16 = self.current_scanline;
                self.render_sprites(px, py);
            }
        }
    }

    /// Advances the PPU by one dot; see the ensures for the timing
    /// guarantees. The background fetch pipeline, scroll-register updates
    /// and pixel emission run inside this step through the helpers above;
    /// the PPU memories and control registers are never written by a tick.
    #[verifier::rlimit(100)]
    pub fn tick(&mut self)
        requires
            old(self).wf(),
            old(self).loaded(),
        ensures
            final(self).wf(),
            final(self).loaded(),
            final(self)@.dots == old(self)@.dots + 1,
            ({
                let p = old(self)@;
                let q = final(self)@;
                &&& (p.cycle < 340 ==> q.scanline == p.scanline && q.cycle == (
                if p.scanline == 0 && p.cycle == 0 {
                    2
                } else {
                    (p.cycle + 1) as u16
                }))
                &&& (p.cycle == 340 ==> q.cycle == 0 && q.scanline == (if p.scanline == 261 {
                    0
                } else {
                    (p.scanline + 1) as u16
                }))
                &&& (p.scanline == 241 && p.cycle == 1 ==> q.status / 128 == 1)
                &&& q.should_nmi == (p.should_nmi || (p.scanline == 241 && p.cycle == 1 && p.ctrl
                    / 128 == 1))
                &&& (p.scanline == 261 && p.cycle == 1 ==> q.status / 32 == 0)
                &&& q.had_pre_render == (p.had_pre_render || (p.scanline == 261 && p.cycle == 1))
                &&& (!(p.scanline == 241 && p.cycle == 1) && !(p.scanline == 261 && p.cycle == 1)
                    ==> q.status / 128 == p.status / 128)
                &&& q.status % 32 == p.status % 32
                &&& q.ctrl == p.ctrl
                &&& q.mask == p.mask
                &&& q.t == p.t
                &&& q.x == p.x
                &&& q.w == p.w
                &&& q.bus == p.bus
                &&& q.oam == p.oam
                &&& q.oam_addr == p.oam_addr
                &&& q.read_buffer == p.read_buffer
                &&& q.informed_frame_ready == (p.informed_frame_ready && !(p.cycle == 340
                    && p.scanline == 261))
                &&& ((q.status / 64) % 2 == 1 && (p.status / 64) % 2 == 0
                    ==> spec_zero_hit_rise_at(p))
                &&& (!spec_rendering_enabled(p) ==> q.v == p.v && q.fb == p.fb && q.sh_pat_lo
                    == p.sh_pat_lo && q.sh_pat_hi == p.sh_pat_hi && q.sh_at_lo == p.sh_at_lo
                    && q.sh_at_hi == p.sh_at_hi && q.nt_byte == p.nt_byte && q.at_byte == p.at_byte
                    && q.pat_lo == p.pat_lo && q.pat_hi == p.pat_hi && q.sprites == p.sprites
                    && q.sprite_count == p.sprite_count && q.opaque_bg == p.opaque_bg)
                &&& (p.scanline >= 240 ==> q.fb == p.fb && q.opaque_bg == p.opaque_bg)
                &&& (240 <= p.scanline <= 260 ==> q.v == p.v && q.sh_pat_lo == p.sh_pat_lo
                    && q.sh_pat_hi == p.sh_pat_hi && q.sh_at_lo == p.sh_at_lo && q.sh_at_hi
                    == p.sh_at_hi && q.nt_byte == p.nt_byte && q.at_byte == p.at_byte && q.pat_lo
                    == p.pat_lo && q.pat_hi == p.pat_hi && q.sprites == p.sprites && q.sprite_count
                    == p.sprite_count)
                &&& ({
                    let pe = (PpuV {
                        cycle: if p.scanline == 0 && p.cycle == 0 {
                            1u16
                        } else {
                            p.cycle
                        },
                        ..p
                    });
                    spec_rendering_enabled(p) && (p.scanline <= 239 || p.scanline == 261) ==> {
                        &&& (pe.cycle == 256 ==> q.v == spec_increment_scroll_y(
                            spec_increment_scroll_x(p.v),
                        ))
                        &&& (pe.cycle == 257 ==> q.v == spec_copy_horizontal(p.v, p.t))
                        &&& (p.scanline == 261 && 280 <= pe.cycle <= 304 ==> q.v
                            == spec_copy_vertical(p.v, p.t))
                        &&& ((1 <= pe.cycle <= 256 || 321 <= pe.cycle <= 336) ==> {
                            let b = spec_bg_step(pe);
                            &&& q.nt_byte == b.nt_byte
                            &&& q.at_byte == b.at_byte
                            &&& q.pat_lo == b.pat_lo
                            &&& q.pat_hi == b.pat_hi
                            &&& q.sh_pat_lo == b.sh_pat_lo
                            &&& q.sh_pat_hi == b.sh_pat_hi
                            &&& q.sh_at_lo == b.sh_at_lo
                            &&& q.sh_at_hi == b.sh_at_hi
                            &&& (pe.cycle != 256 && pe.cycle != 257 ==> q.v == b.v)
                        })
                    }
                })
            }),
    {
        let ghost p0 = self@;
        if self.current_scanline == 0 && self.current_cycle == 0 {
            self.current_cycle = 1;
        }
        let ghost pe_st = self@;
        self.tick_scanline_ops();
        let ghost p2 = self@;
        self.tick_pixel_ops();
        proof {
            if (self@.status / 64) % 2 == 1 && (p0.status / 64) % 2 == 0 {
                assert(pe_st == (PpuV {
                    cycle: if p0.scanline == 0 && p0.cycle == 0 {
                        1u16
                    } else {
                        p0.cycle
                    },
                    ..p0
                }));
                lemma_zero_hit_lift(p0, p2);
            }
        }
        self.current_cycle = self.current_cycle + 1;
        if self.current_cycle > 340 {
            self.current_cycle = 0;
            self.current_scanline = self.current_scanline + 1;
            if self.current_scanline > 261 {
                self.current_scanline = 0;
                self.informed_frame_ready = false;
            }
        }
        self.dots = Ghost(self.dots@ + 1);
    }
}

} // verus!
