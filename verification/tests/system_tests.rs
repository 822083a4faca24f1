use nes_core::bus::Bus;
use nes_core::cpu::Olc6502;
use nes_core::mapper0::Mapper0;
use nes_core::ppu::color_rgb;

/// Builds a machine from a 16 KiB PRG image and an 8 KiB CHR image. The
/// reset vector points at 0x8000 and the NMI vector at 0x9000.
fn machine(program: &[u8], chr: Vec<u8>) -> Olc6502 {
    let mut prg = vec![0u8; 0x4000];
    prg[..program.len()].copy_from_slice(program);
    prg[0x3ffc] = 0x00;
    prg[0x3ffd] = 0x80;
    prg[0x3ffa] = 0x00;
    prg[0x3ffb] = 0x90;
    let mapper = Mapper0::new(prg, chr);
    let mut bus = Bus::new();
    bus.set_mapper(mapper);
    let mut cpu = Olc6502::new(bus);
    cpu.reset();
    cpu
}

/// Dot index of the PPU position within its frame.
fn dot_index(cpu: &Olc6502) -> u64 {
    cpu.bus.ppu.scanline() as u64 * 341 + cpu.bus.ppu.cycle() as u64
}

#[test]
fn ppu_runs_three_dots_per_cpu_cycle() {
    // A single NOP (2 cycles) must advance the PPU by 6 dots. The PPU
    // skips dot 0 of scanline 0, so the first tick lands on dot 2.
    let mut cpu = machine(&[0xea, 0xea], vec![0u8; 0x2000]);
    assert_eq!(dot_index(&cpu), 0);
    cpu.tick().unwrap();
    assert_eq!(dot_index(&cpu), 7); // 6 ticks, plus 1 for the skipped dot
    cpu.tick().unwrap();
    assert_eq!(dot_index(&cpu), 13);
}

#[test]
fn oam_dma_costs_513_cycles_and_1536_dots() {
    let mut program = vec![0u8; 0x10];
    program[0] = 0xea; // NOP; the test drives the DMA port directly
    let mut cpu = machine(&program, vec![0u8; 0x2000]);
    // Source page 0x02 lives in internal RAM.
    for i in 0..256usize {
        cpu.bus.internal_ram[0x200 + i] = i as u8;
    }
    cpu.bus.ppu.write_register(0x2003, 0); // OAMADDR = 0
    let before = dot_index(&cpu);
    assert_eq!(before, 0);
    let extra = cpu.bus.write_u8(0x4014, 0x02);
    assert_eq!(extra, 513);
    // 1536 dots from the frame start land on scanline 4, cycle 173
    // (the PPU skips dot 0 of scanline 0).
    assert_eq!(cpu.bus.ppu.scanline(), 4);
    assert_eq!(cpu.bus.ppu.cycle(), 173);
    // The page arrived in OAM; OAMADDR wrapped back to 0.
    cpu.bus.ppu.write_register(0x2003, 0);
    assert_eq!(cpu.bus.ppu.read_register(0x2004), 0x00);
    cpu.bus.ppu.write_register(0x2003, 0x41);
    assert_eq!(cpu.bus.ppu.read_register(0x2004), 0x41);
}

#[test]
fn dma_through_a_store_reports_stall_cycles() {
    // LDA #$02; STA $4014 — the store itself costs 4 cycles plus the
    // 513-cycle stall.
    let mut cpu = machine(&[0xa9, 0x02, 0x8d, 0x14, 0x40], vec![0u8; 0x2000]);
    cpu.execute_instruction().unwrap();
    let cost = cpu.execute_instruction().unwrap();
    assert_eq!(cost, 4 + 513);
}

#[test]
fn nmi_latency_pushes_state_and_takes_the_vector() {
    // Program: an endless chain of JSR/RTS pairs so every instruction is
    // well-defined while the PPU runs toward vblank.
    let mut program = vec![0u8; 0x20];
    program[0] = 0x20; // JSR $8010
    program[1] = 0x10;
    program[2] = 0x80;
    program[3] = 0x4c; // JMP $8000
    program[4] = 0x00;
    program[5] = 0x80;
    program[0x10] = 0x60; // RTS
    let mut cpu = machine(&program, vec![0u8; 0x2000]);

    // Pass the pre-render scanline so PPUCTRL writes take effect, then
    // enable the vblank NMI.
    while !(cpu.bus.ppu.scanline() == 261 && cpu.bus.ppu.cycle() == 2) {
        cpu.bus.ppu.tick();
    }
    cpu.bus.write_u8(0x2000, 0x80);

    // Drive the PPU just short of the vblank edge, then let one CPU tick
    // cross it.
    while !(cpu.bus.ppu.scanline() == 241 && cpu.bus.ppu.cycle() == 0) {
        cpu.bus.ppu.tick();
    }
    assert!(!cpu.bus.ppu.get_should_nmi());
    let cycles_before = cpu.get_cycles();
    let s_before = cpu.get_s();
    cpu.tick().unwrap();
    // The NMI was serviced: PC went through the 0xFFFA vector; the JSR
    // pushed two bytes and the interrupt entry three more, I is set, and
    // the tick cost at least 7 cycles (the JSR plus the interrupt entry).
    assert_eq!(cpu.pc, 0x9000);
    assert_eq!(cpu.get_s(), s_before.wrapping_sub(5));
    assert_eq!(cpu.get_p() & 0x04, 0x04);
    assert!(cpu.get_cycles() - cycles_before >= 7);
    assert!(!cpu.bus.ppu.get_should_nmi());
}

/// CHR image whose tile 1 has all low-plane bits set: every pixel of the
/// tile has color index 1.
fn chr_with_solid_tile_1() -> Vec<u8> {
    let mut chr = vec![0u8; 0x2000];
    for row in 0..8 {
        chr[16 + row] = 0xff;
    }
    chr
}

/// Fills the first nametable with tile 1 and points both scroll registers
/// at it, with a distinctive palette.
fn prepare_background(cpu: &mut Olc6502) {
    // Palette: backdrop 0x0f, background palette 0 color 1 -> 0x21.
    cpu.bus.ppu.write_register(0x2006, 0x3f);
    cpu.bus.ppu.write_register(0x2006, 0x00);
    cpu.bus.ppu.write_register(0x2007, 0x0f);
    cpu.bus.ppu.write_register(0x2007, 0x21);
    // Sprite palette 0 color 1 -> 0x16.
    cpu.bus.ppu.write_register(0x2006, 0x3f);
    cpu.bus.ppu.write_register(0x2006, 0x11);
    cpu.bus.ppu.write_register(0x2007, 0x16);
    // Nametable 0: tile 1 everywhere, attributes 0.
    cpu.bus.ppu.write_register(0x2006, 0x20);
    cpu.bus.ppu.write_register(0x2006, 0x00);
    for _ in 0..0x400 {
        cpu.bus.ppu.write_register(0x2007, 0x01);
    }
    // Rewind the shared address so rendering starts at the frame origin.
    cpu.bus.ppu.write_register(0x2006, 0x20);
    cpu.bus.ppu.write_register(0x2006, 0x00);
}

#[test]
fn sprite_zero_hit_fires_at_the_overlap() {
    let mut program = vec![0u8; 4];
    program[0] = 0xea;
    let mut cpu = machine(&program, chr_with_solid_tile_1());

    // Sprite 0 at (x=10, raw y=20): drawn on scanlines 21..28.
    cpu.bus.ppu.write_register(0x2003, 0);
    cpu.bus.ppu.write_register(0x2004, 20); // Y
    cpu.bus.ppu.write_register(0x2004, 1); // tile 1 (opaque)
    cpu.bus.ppu.write_register(0x2004, 0); // attributes
    cpu.bus.ppu.write_register(0x2004, 10); // X

    prepare_background(&mut cpu);

    // Pass pre-render, then enable background and sprites.
    while !(cpu.bus.ppu.scanline() == 261 && cpu.bus.ppu.cycle() == 2) {
        cpu.bus.ppu.tick();
    }
    cpu.bus.ppu.write_register(0x2001, 0x18);
    // Point the scroll origin at nametable 0.
    cpu.bus.ppu.write_register(0x2006, 0x20);
    cpu.bus.ppu.write_register(0x2006, 0x00);

    // No hit may be flagged before the sprite's first scanline.
    let mut guard: u64 = 0;
    while cpu.bus.ppu.status_bits() & 0x40 == 0 {
        assert!(
            cpu.bus.ppu.scanline() <= 21 || cpu.bus.ppu.scanline() > 240,
            "hit must not fire before the sprite row, at {}:{}",
            cpu.bus.ppu.scanline(),
            cpu.bus.ppu.cycle()
        );
        cpu.bus.ppu.tick();
        guard += 1;
        assert!(guard < 200_000, "sprite-zero hit never fired");
    }
    // The flag rose on the sprite's first row, inside its eight-pixel
    // horizontal window (x = 10..18, i.e. dots 11..19).
    assert_eq!(cpu.bus.ppu.scanline(), 21);
    let dot = cpu.bus.ppu.cycle();
    assert!(11 <= dot && dot <= 19, "hit at dot {dot}");
}

#[test]
fn framebuffer_renders_the_expected_color_and_is_stable() {
    let run = || -> Vec<u8> {
        let mut cpu = machine(&[0xea], chr_with_solid_tile_1());
        prepare_background(&mut cpu);
        while !(cpu.bus.ppu.scanline() == 261 && cpu.bus.ppu.cycle() == 2) {
            cpu.bus.ppu.tick();
        }
        cpu.bus.ppu.write_register(0x2001, 0x08); // background only
        cpu.bus.ppu.write_register(0x2006, 0x20);
        cpu.bus.ppu.write_register(0x2006, 0x00);
        // Render two full frames.
        for _ in 0..(341 * 262 * 2) {
            cpu.bus.ppu.tick();
        }
        cpu.bus.ppu.get_pixel_buffer().to_vec()
    };
    let fb1 = run();
    let fb2 = run();
    assert_eq!(fb1, fb2, "two runs produce byte-identical frames");
    // A mid-screen pixel shows background palette 0, color 1 -> entry 0x21.
    let (r, g, b) = color_rgb(0x21);
    let idx = 120 * 256 * 4 + 128 * 4;
    assert_eq!(&fb1[idx..idx + 4], &[r, g, b, 0xff]);
}
