use nes_core::bus::Bus;
use nes_core::cpu::Olc6502;
use nes_core::instructions::{AddressingMode, Instruction, Opcode};
use nes_core::mapper0::Mapper0;
use nes_core::ppu_bus::NametableArrangement;
use nes_core::rom::{INesFlag6, Rom, RomFormatError};

/// Builds a 16 KiB PRG image holding `program` at 0x8000, with the reset
/// vector pointing at 0x8000 and the NMI vector at 0x9000.
fn prg_with_program(program: &[u8]) -> Vec<u8> {
    let mut prg = vec![0u8; 0x4000];
    prg[..program.len()].copy_from_slice(program);
    prg[0x3ffc] = 0x00;
    prg[0x3ffd] = 0x80;
    prg[0x3ffa] = 0x00;
    prg[0x3ffb] = 0x90;
    prg
}

fn cpu_with_program(program: &[u8]) -> Olc6502 {
    let mapper = Mapper0::new(prg_with_program(program), vec![0u8; 0x2000]);
    let mut bus = Bus::new();
    bus.set_mapper(mapper);
    let mut cpu = Olc6502::new(bus);
    cpu.reset();
    cpu
}

#[test]
fn reset_vector_loads_pc_and_costs_seven_cycles() {
    let mut prg = vec![0u8; 0x4000];
    prg[0x3ffc] = 0x34;
    prg[0x3ffd] = 0x12;
    let mapper = Mapper0::new(prg, vec![0u8; 0x2000]);
    let mut bus = Bus::new();
    bus.set_mapper(mapper);
    let mut cpu = Olc6502::new(bus);
    cpu.reset();
    assert_eq!(cpu.pc, 0x1234);
    assert_eq!(cpu.get_cycles(), 7);
}

#[test]
fn adc_flag_table_positive_overflow() {
    // LDA #$50; ADC #$50
    let mut cpu = cpu_with_program(&[0xa9, 0x50, 0x69, 0x50]);
    cpu.execute_instruction().unwrap();
    cpu.execute_instruction().unwrap();
    assert_eq!(cpu.get_a(), 0xa0);
    let p = cpu.get_p();
    assert_eq!(p & 0x40, 0x40, "V set");
    assert_eq!(p & 0x01, 0x00, "C clear");
    assert_eq!(p & 0x80, 0x80, "N set");
}

#[test]
fn adc_flag_table_negative_overflow() {
    // LDA #$D0; ADC #$90
    let mut cpu = cpu_with_program(&[0xa9, 0xd0, 0x69, 0x90]);
    cpu.execute_instruction().unwrap();
    cpu.execute_instruction().unwrap();
    assert_eq!(cpu.get_a(), 0x60);
    let p = cpu.get_p();
    assert_eq!(p & 0x40, 0x40, "V set");
    assert_eq!(p & 0x01, 0x01, "C set");
    assert_eq!(p & 0x80, 0x00, "N clear");
}

#[test]
fn stack_roundtrip_u8_via_pha_pla() {
    // LDA #$37; PHA; LDA #$00; PLA
    let mut cpu = cpu_with_program(&[0xa9, 0x37, 0x48, 0xa9, 0x00, 0x68]);
    let s0 = cpu.get_s();
    for _ in 0..4 {
        cpu.execute_instruction().unwrap();
    }
    assert_eq!(cpu.get_a(), 0x37);
    assert_eq!(cpu.get_s(), s0);
}

#[test]
fn stack_roundtrip_u16_via_jsr_rts() {
    // JSR $8010 ... at $8010: RTS
    let mut program = vec![0u8; 0x20];
    program[0] = 0x20;
    program[1] = 0x10;
    program[2] = 0x80;
    program[3] = 0xea; // NOP after the call
    program[0x10] = 0x60;
    let mut cpu = cpu_with_program(&program);
    let s0 = cpu.get_s();
    cpu.execute_instruction().unwrap(); // JSR
    assert_eq!(cpu.pc, 0x8010);
    cpu.execute_instruction().unwrap(); // RTS
    assert_eq!(cpu.pc, 0x8003);
    assert_eq!(cpu.get_s(), s0);
}

#[test]
fn php_plp_preserves_observable_flags() {
    // SEC; SED; PHP; CLC; CLD; PLP
    let mut cpu = cpu_with_program(&[0x38, 0xf8, 0x08, 0x18, 0xd8, 0x28]);
    for _ in 0..6 {
        cpu.execute_instruction().unwrap();
    }
    let p = cpu.get_p();
    assert_eq!(p & 0x01, 0x01, "C restored");
    assert_eq!(p & 0x08, 0x08, "D restored");
    assert_eq!(p & 0x20, 0x20, "U reads 1");
    assert_eq!(p & 0x10, 0x00, "B reads 0");
}

#[test]
fn page_cross_penalty_absolute_x() {
    // LDX #$01; LDA $10FF,X  vs  LDX #$01; LDA $1000,X
    let mut cpu = cpu_with_program(&[0xa2, 0x01, 0xbd, 0xff, 0x10, 0xbd, 0x00, 0x10]);
    cpu.execute_instruction().unwrap();
    let crossing = cpu.execute_instruction().unwrap();
    let straight = cpu.execute_instruction().unwrap();
    assert_eq!(crossing, 5);
    assert_eq!(straight, 4);
    assert_eq!(crossing, straight + 1);
}

#[test]
fn indirect_jmp_page_bug() {
    // JMP ($10FF): low byte from $10FF, high byte from $1000, not $1100.
    let mut cpu = cpu_with_program(&[0x6c, 0xff, 0x10]);
    cpu.bus.internal_ram[0x10ff % 0x800] = 0x34; // $10FF
    cpu.bus.internal_ram[0x1000 % 0x800] = 0x12; // $1000
    cpu.bus.internal_ram[0x1100 % 0x800] = 0x99; // $1100 (must not be used)
    cpu.execute_instruction().unwrap();
    assert_eq!(cpu.pc, 0x1234);
}

#[test]
fn pc_advance_matches_addressing_mode_width() {
    // LDA #$01 (2 bytes); LDA $0010 (2); LDA $1234 (3); NOP (1)
    let mut cpu = cpu_with_program(&[0xa9, 0x01, 0xa5, 0x10, 0xad, 0x34, 0x12, 0xea]);
    let pc0 = cpu.pc;
    cpu.execute_instruction().unwrap();
    assert_eq!(cpu.pc, pc0 + 2);
    cpu.execute_instruction().unwrap();
    assert_eq!(cpu.pc, pc0 + 4);
    cpu.execute_instruction().unwrap();
    assert_eq!(cpu.pc, pc0 + 7);
    cpu.execute_instruction().unwrap();
    assert_eq!(cpu.pc, pc0 + 8);
}

#[test]
fn branch_taken_and_page_cross_cycles() {
    // SEC; BCS +0x10 (taken, same page); at target: SEC; BCS to a
    // different page.
    let mut program = vec![0u8; 0x100];
    program[0] = 0x38; // SEC
    program[1] = 0xb0; // BCS +0x10 -> lands at 0x8013
    program[2] = 0x10;
    program[0x13] = 0xb0; // BCS +0x7f -> 0x8094, same page as 0x8015
    program[0x14] = 0x7f;
    let mut cpu = cpu_with_program(&program);
    cpu.execute_instruction().unwrap(); // SEC
    let taken_same_page = cpu.execute_instruction().unwrap();
    assert_eq!(taken_same_page, 3); // 2 base + 1 taken
    assert_eq!(cpu.pc, 0x8013);
}

#[test]
fn unknown_opcode_reports_decode_error() {
    let mut cpu = cpu_with_program(&[0x02]);
    let err = cpu.execute_instruction().unwrap_err();
    assert_eq!(err.pc, 0x8000);
    assert_eq!(err.opcode, 0x02);
}

#[test]
fn sbc_borrow_and_carry() {
    // SEC; LDA #$10; SBC #$08 -> A = 8, C set (no borrow)
    let mut cpu = cpu_with_program(&[0x38, 0xa9, 0x10, 0xe9, 0x08]);
    for _ in 0..3 {
        cpu.execute_instruction().unwrap();
    }
    assert_eq!(cpu.get_a(), 0x08);
    assert_eq!(cpu.get_p() & 0x01, 0x01);
}

#[test]
fn cmp_sets_carry_and_zero() {
    // LDA #$40; CMP #$40
    let mut cpu = cpu_with_program(&[0xa9, 0x40, 0xc9, 0x40]);
    cpu.execute_instruction().unwrap();
    cpu.execute_instruction().unwrap();
    let p = cpu.get_p();
    assert_eq!(p & 0x01, 0x01, "C set");
    assert_eq!(p & 0x02, 0x02, "Z set");
}

#[test]
fn addressing_mode_sizes() {
    assert_eq!(AddressingMode::Acc.size(), 1);
    assert_eq!(AddressingMode::Impl.size(), 1);
    assert_eq!(AddressingMode::Imm.size(), 2);
    assert_eq!(AddressingMode::Zpg.size(), 2);
    assert_eq!(AddressingMode::ZpgX.size(), 2);
    assert_eq!(AddressingMode::ZpgY.size(), 2);
    assert_eq!(AddressingMode::Rel.size(), 2);
    assert_eq!(AddressingMode::XInd.size(), 2);
    assert_eq!(AddressingMode::IndY.size(), 2);
    assert_eq!(AddressingMode::Abs.size(), 3);
    assert_eq!(AddressingMode::AbsX.size(), 3);
    assert_eq!(AddressingMode::AbsY.size(), 3);
    assert_eq!(AddressingMode::Ind.size(), 3);
}

#[test]
fn opcode_lookup_spot_checks() {
    let lda_imm: Opcode = Opcode::lookup(0xa9).unwrap();
    assert!(matches!(lda_imm.instr, Instruction::LDA));
    assert!(matches!(lda_imm.mode, AddressingMode::Imm));
    assert_eq!(lda_imm.cycles, 2);
    assert!(!lda_imm.cross_cycle);

    let lda_abx: Opcode = Opcode::lookup(0xbd).unwrap();
    assert!(matches!(lda_abx.instr, Instruction::LDA));
    assert!(matches!(lda_abx.mode, AddressingMode::AbsX));
    assert!(lda_abx.cross_cycle);

    let brk: Opcode = Opcode::lookup(0x00).unwrap();
    assert!(matches!(brk.instr, Instruction::BRK));
    assert_eq!(brk.cycles, 7);

    assert!(Opcode::lookup(0x02).is_none());
}

#[test]
fn ram_mirroring_on_cpu_bus() {
    let mut cpu = cpu_with_program(&[0xa9, 0x42, 0x8d, 0x05, 0x00]); // LDA #$42; STA $0005
    cpu.execute_instruction().unwrap();
    cpu.execute_instruction().unwrap();
    assert_eq!(cpu.bus.internal_ram[0x005], 0x42);
    // mirrored at 0x0805, 0x1005, 0x1805
    assert_eq!(cpu.bus.read_u8(0x0805), 0x42);
    assert_eq!(cpu.bus.read_u8(0x1805), 0x42);
}

#[test]
fn rom_parse_and_prg_mirroring() {
    let mut image = vec![0x4e, 0x45, 0x53, 0x1a, 1, 1, 0, 0, 0, 0, 0, 0, 0, 0, 0, 0];
    let mut prg = vec![0u8; 0x4000];
    prg[0] = 0xab;
    image.extend_from_slice(&prg);
    image.extend_from_slice(&vec![0u8; 0x2000]);
    let rom = Rom::parse(image).unwrap();
    let mapper = rom.mapper;
    // 16 KiB PRG aliases the upper window onto the lower.
    assert_eq!(mapper.cpu_map_read(0x8000), 0xab);
    assert_eq!(mapper.cpu_map_read(0xc000), 0xab);
}

#[test]
fn rom_parse_errors() {
    assert!(matches!(Rom::parse(vec![0; 4]), Err(RomFormatError::TooShort)));
    assert!(matches!(
        Rom::parse(vec![0x4e, 0x45, 0x53, 0x00, 1, 1, 0, 0, 0, 0, 0, 0, 0, 0, 0, 0]),
        Err(RomFormatError::BadMagic)
    ));
    assert!(matches!(
        Rom::parse(vec![0x4e, 0x45, 0x53, 0x1a, 1, 1, 0x10, 0, 0, 0, 0, 0, 0, 0, 0, 0]),
        Err(RomFormatError::UnsupportedMapper)
    ));
    assert!(matches!(
        Rom::parse(vec![0x4e, 0x45, 0x53, 0x1a, 3, 1, 0, 0, 0, 0, 0, 0, 0, 0, 0, 0]),
        Err(RomFormatError::BadPrgSize)
    ));
    assert!(matches!(
        Rom::parse(vec![0x4e, 0x45, 0x53, 0x1a, 1, 2, 0, 0, 0, 0, 0, 0, 0, 0, 0, 0]),
        Err(RomFormatError::BadChrSize)
    ));
    assert!(matches!(
        Rom::parse(vec![0x4e, 0x45, 0x53, 0x1a, 1, 1, 0, 0, 0, 0, 0, 0, 0, 0, 0, 0]),
        Err(RomFormatError::Truncated)
    ));
}

#[test]
fn rom_flag6_selects_arrangement() {
    assert_eq!(
        INesFlag6::from_bytes(0).get_nametable_mirroring_mode(),
        NametableArrangement::Vertical
    );
    assert_eq!(
        INesFlag6::from_bytes(1).get_nametable_mirroring_mode(),
        NametableArrangement::Horizontal
    );
}

#[test]
fn summing_loop_matches_hand_counted_trace() {
    // LDA #$00; LDX #$05; CLC;
    // loop: STX $00; ADC $00; DEX; BNE loop
    // Sums 5+4+3+2+1 with a hand-counted cycle total.
    let program = [0xa9, 0x00, 0xa2, 0x05, 0x18, 0x86, 0x00, 0x65, 0x00, 0xca, 0xd0, 0xf9];
    let mut cpu = cpu_with_program(&program);
    let mut steps = 0u32;
    while cpu.pc != 0x800c {
        cpu.execute_instruction().unwrap();
        steps += 1;
        assert!(steps < 100, "runaway loop");
    }
    assert_eq!(cpu.get_a(), 15);
    assert_eq!(cpu.get_x(), 0);
    assert_eq!(cpu.get_p() & 0x02, 0x02, "Z set by the final DEX");
    // 7 power-on + LDA 2 + LDX 2 + CLC 2
    // + 5 * (STX 3 + ADC 3 + DEX 2) + 4 * (BNE taken 3) + BNE not taken 2
    assert_eq!(cpu.get_cycles(), 7 + 6 + 40 + 12 + 2);
}

#[test]
fn writes_into_the_prg_window_are_dropped() {
    // LDA #$99; STA $8000
    let mut cpu = cpu_with_program(&[0xa9, 0x99, 0x8d, 0x00, 0x80]);
    let before = cpu.bus.read_u8(0x8000);
    cpu.execute_instruction().unwrap();
    cpu.execute_instruction().unwrap();
    assert_eq!(cpu.bus.read_u8(0x8000), before);
}

#[test]
fn sbc_carry_follows_the_inverted_adc_definition() {
    // SEC; LDA #$FF; SBC #$7F: -1 - 127 = -128, no borrow, so the result
    // is 0x80 with C still set (and V clear, N set).
    let mut cpu = cpu_with_program(&[0x38, 0xa9, 0xff, 0xe9, 0x7f]);
    for _ in 0..3 {
        cpu.execute_instruction().unwrap();
    }
    assert_eq!(cpu.get_a(), 0x80);
    let p = cpu.get_p();
    assert_eq!(p & 0x01, 0x01, "C set: no borrow");
    assert_eq!(p & 0x40, 0x00, "V clear");
    assert_eq!(p & 0x80, 0x80, "N set");
}

#[test]
fn ram_is_zeroed_at_construction() {
    let bus = Bus::new();
    assert!(bus.internal_ram.iter().all(|b| *b == 0));
    assert_eq!(bus.internal_ram.len(), 0x800);
}
