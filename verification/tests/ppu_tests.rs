use nes_core::mapper0::Mapper0;
use nes_core::ppu::{Ppu, color_rgb, select_bit_n};
use nes_core::ppu_bus::NametableArrangement;
use nes_core::ppu_ctrl::PPUCtrl;
use nes_core::ppu_mask::PPUMask;
use nes_core::address_register::AddressRegister;
use nes_core::joypad::Joypad;

fn fresh_ppu(arrangement: NametableArrangement) -> Ppu {
    let mapper = Mapper0::new(vec![0u8; 0x4000], vec![0u8; 0x2000]);
    let mut ppu = Ppu::new(arrangement);
    ppu.set_mapper(mapper);
    ppu
}

fn set_vram_addr(ppu: &mut Ppu, addr: u16) {
    ppu.write_register(0x2006, (addr >> 8) as u8);
    ppu.write_register(0x2006, (addr & 0xff) as u8);
}

/// Buffered PPUDATA read: prime once, then take the value.
fn vram_read(ppu: &mut Ppu, addr: u16) -> u8 {
    set_vram_addr(ppu, addr);
    ppu.read_register(0x2007);
    set_vram_addr(ppu, addr);
    ppu.read_register(0x2007);
    ppu.read_register(0x2007)
}

fn vram_write(ppu: &mut Ppu, addr: u16, data: u8) {
    set_vram_addr(ppu, addr);
    ppu.write_register(0x2007, data);
}

#[test]
fn palette_aliasing_reads_back_at_mirror() {
    let mut ppu = fresh_ppu(NametableArrangement::Vertical);
    for (alias, base) in [(0x3f10u16, 0x3f00u16), (0x3f14, 0x3f04), (0x3f18, 0x3f08), (
        0x3f1c,
        0x3f0c,
    )] {
        vram_write(&mut ppu, alias, 0x2a);
        // Palette reads return the fresh value directly.
        set_vram_addr(&mut ppu, base);
        assert_eq!(ppu.read_register(0x2007), 0x2a);
        vram_write(&mut ppu, base, 0x15);
        set_vram_addr(&mut ppu, alias);
        assert_eq!(ppu.read_register(0x2007), 0x15);
    }
}

#[test]
fn nametable_mirroring_vertical_arrangement() {
    let mut ppu = fresh_ppu(NametableArrangement::Vertical);
    vram_write(&mut ppu, 0x2000, 0xab);
    assert_eq!(vram_read(&mut ppu, 0x2400), 0xab, "left/right pair shares backing");
    assert_eq!(vram_read(&mut ppu, 0x2800), 0x00, "top/bottom pair does not");
}

#[test]
fn nametable_mirroring_horizontal_arrangement() {
    let mut ppu = fresh_ppu(NametableArrangement::Horizontal);
    vram_write(&mut ppu, 0x2000, 0xcd);
    assert_eq!(vram_read(&mut ppu, 0x2800), 0xcd, "top/bottom pair shares backing");
    assert_eq!(vram_read(&mut ppu, 0x2400), 0x00, "left/right pair does not");
}

#[test]
fn ppudata_read_is_buffered_for_vram() {
    let mut ppu = fresh_ppu(NametableArrangement::Vertical);
    vram_write(&mut ppu, 0x2005, 0x66);
    set_vram_addr(&mut ppu, 0x2005);
    let first = ppu.read_register(0x2007); // stale buffer
    set_vram_addr(&mut ppu, 0x2005);
    ppu.read_register(0x2007);
    let second = ppu.read_register(0x2007);
    assert_eq!(first, 0x00);
    assert_eq!(second, 0x66);
}

#[test]
fn status_read_clears_vblank_and_write_toggle() {
    let mut ppu = fresh_ppu(NametableArrangement::Vertical);
    // Drive the PPU to the vblank edge: scanline 241, cycle 1.
    while !(ppu.scanline() == 241 && ppu.cycle() == 2) {
        ppu.tick();
    }
    assert_eq!(ppu.status_bits() & 0x80, 0x80);
    let first = ppu.read_register(0x2002);
    assert_eq!(first & 0x80, 0x80);
    let second = ppu.read_register(0x2002);
    assert_eq!(second & 0x80, 0x00);
}

#[test]
fn frame_ready_is_a_one_shot_edge() {
    let mut ppu = fresh_ppu(NametableArrangement::Vertical);
    assert!(!ppu.frame_ready());
    while !(ppu.scanline() == 241 && ppu.cycle() == 2) {
        ppu.tick();
    }
    assert!(ppu.frame_ready());
    assert!(!ppu.frame_ready());
}

#[test]
fn ctrl_and_mask_writes_are_gated_until_pre_render() {
    let mut ppu = fresh_ppu(NametableArrangement::Vertical);
    // Before the first pre-render scanline, PPUCTRL is ignored: the
    // VRAM increment stays 1.
    ppu.write_register(0x2000, 0x04);
    set_vram_addr(&mut ppu, 0x2000);
    ppu.write_register(0x2007, 0x11);
    ppu.write_register(0x2007, 0x22);
    assert_eq!(vram_read(&mut ppu, 0x2001), 0x22);
    // Run through the pre-render scanline; then the write takes.
    while !(ppu.scanline() == 261 && ppu.cycle() == 2) {
        ppu.tick();
    }
    ppu.write_register(0x2000, 0x04);
    set_vram_addr(&mut ppu, 0x2100);
    ppu.write_register(0x2007, 0x33);
    ppu.write_register(0x2007, 0x44);
    assert_eq!(vram_read(&mut ppu, 0x2100), 0x33);
    assert_eq!(vram_read(&mut ppu, 0x2120), 0x44);
}

#[test]
fn oamdata_write_and_pure_read() {
    let mut ppu = fresh_ppu(NametableArrangement::Vertical);
    ppu.write_register(0x2003, 5);
    ppu.write_register(0x2004, 0x77);
    // The write advanced OAMADDR; point it back.
    ppu.write_register(0x2003, 5);
    assert_eq!(ppu.read_register(0x2004), 0x77);
    assert_eq!(ppu.read_register(0x2004), 0x77, "reads do not advance");
}

#[test]
fn ppu_ctrl_typed_accessors() {
    assert_eq!(PPUCtrl::from_bytes(0x00).get_base_nametable_address(), 0x2000);
    assert_eq!(PPUCtrl::from_bytes(0x01).get_base_nametable_address(), 0x2400);
    assert_eq!(PPUCtrl::from_bytes(0x02).get_base_nametable_address(), 0x2800);
    assert_eq!(PPUCtrl::from_bytes(0x03).get_base_nametable_address(), 0x2c00);
    assert_eq!(PPUCtrl::from_bytes(0x00).get_increment_value(), 1);
    assert_eq!(PPUCtrl::from_bytes(0x04).get_increment_value(), 32);
    assert_eq!(PPUCtrl::from_bytes(0x10).get_background_pattern_table_address(), 0x1000);
    assert_eq!(PPUCtrl::from_bytes(0x08).get_sprite_pattern_table_address(), 0x1000);
    assert_eq!(PPUCtrl::from_bytes(0x00).get_sprite_height(), 8);
    assert_eq!(PPUCtrl::from_bytes(0x20).get_sprite_height(), 16);
    assert_eq!(PPUCtrl::from_bytes(0x80).vblank_nmi_enable(), 1);
}

#[test]
fn ppu_mask_accessors() {
    let m = PPUMask::from_bytes(0x18);
    assert_eq!(m.show_background(), 1);
    assert_eq!(m.show_sprites(), 1);
    assert_eq!(m.grayscale(), 0);
    assert_eq!(PPUMask::from_bytes(0x01).grayscale(), 1);
}

#[test]
fn address_register_masks_and_increments() {
    let mut reg = AddressRegister::new();
    let mut latch = false;
    reg.update(0xff, &mut latch); // high byte masked to 0x3F
    assert!(latch);
    reg.update(0xfe, &mut latch);
    assert!(!latch);
    assert_eq!(reg.get_address(), 0x3ffe);
    reg.increment(1);
    assert_eq!(reg.get_address(), 0x3fff);
    reg.increment(1);
    assert_eq!(reg.get_address(), 0x0000, "wraps within 14 bits");
}

#[test]
fn select_bit_n_counts_from_msb() {
    assert_eq!(select_bit_n(0b1000_0000, 0), 1);
    assert_eq!(select_bit_n(0b1000_0000, 7), 0);
    assert_eq!(select_bit_n(0b0000_0001, 7), 1);
    assert_eq!(select_bit_n(0b0100_0000, 1), 1);
}

#[test]
fn color_table_spot_checks() {
    assert_eq!(color_rgb(0), (84, 84, 84));
    assert_eq!(color_rgb(1), (0, 30, 116));
    assert_eq!(color_rgb(63), (0, 0, 0));
}

#[test]
fn joypad_shifts_out_bits_lsb_first() {
    let mut pad = Joypad::new();
    pad.state.set_button(0x01, true); // A
    pad.state.set_button(0x08, true); // Start
    pad.set_shift_register_strobe(true);
    pad.set_shift_register_strobe(false);
    let bits: Vec<u8> = (0..8).map(|_| pad.read_status()).collect();
    assert_eq!(bits, vec![1, 0, 0, 1, 0, 0, 0, 0]);
    assert_eq!(pad.read_status(), 1, "after eight reads the port returns 1");
    assert_eq!(pad.read_status(), 1);
}

#[test]
fn joypad_strobe_high_rereads_first_bit() {
    let mut pad = Joypad::new();
    pad.state.set_button(0x01, true);
    pad.set_shift_register_strobe(true);
    assert_eq!(pad.read_status(), 1);
    assert_eq!(pad.read_status(), 1, "strobe held high keeps returning bit 0");
}

#[test]
fn chr_ram_retains_writes_when_the_rom_has_no_chr() {
    let mapper = Mapper0::new(vec![0u8; 0x4000], vec![]);
    let mut ppu = Ppu::new(NametableArrangement::Vertical);
    ppu.set_mapper(mapper);
    vram_write(&mut ppu, 0x0005, 0x5a);
    assert_eq!(vram_read(&mut ppu, 0x0005), 0x5a);
}
