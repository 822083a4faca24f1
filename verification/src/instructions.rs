//! The 6502 instruction table: mnemonics, addressing modes, base cycle
//! counts and the page-cross penalty flag, indexed by opcode byte.
use vstd::prelude::*;

verus! {

/// The thirteen addressing modes of the 6502.
#[derive(Debug, Copy, Clone, PartialEq, Eq, Structural)]
pub enum AddressingMode {
    Acc,
    Abs,
    AbsX,
    AbsY,
    Imm,
    Impl,
    Ind,
    XInd,
    IndY,
    Rel,
    Zpg,
    ZpgX,
    ZpgY,
}

impl AddressingMode {
    /// Total instruction width in bytes: the opcode byte plus its operand bytes.
    pub open spec fn spec_size(self) -> u8 {
        match self {
            AddressingMode::Acc => 1,
            AddressingMode::Abs => 3,
            AddressingMode::AbsX => 3,
            AddressingMode::AbsY => 3,
            AddressingMode::Imm => 2,
            AddressingMode::Impl => 1,
            AddressingMode::Ind => 3,
            AddressingMode::XInd => 2,
            AddressingMode::IndY => 2,
            AddressingMode::Rel => 2,
            AddressingMode::Zpg => 2,
            AddressingMode::ZpgX => 2,
            AddressingMode::ZpgY => 2,
        }
    }

    pub fn size(&self) -> (r: u8)
        ensures
            r == self.spec_size(),
    {
        match self {
            AddressingMode::Acc => 1,
            AddressingMode::Abs => 3,
            AddressingMode::AbsX => 3,
            AddressingMode::AbsY => 3,
            AddressingMode::Imm => 2,
            AddressingMode::Impl => 1,
            AddressingMode::Ind => 3,
            AddressingMode::XInd => 2,
            AddressingMode::IndY => 2,
            AddressingMode::Rel => 2,
            AddressingMode::Zpg => 2,
            AddressingMode::ZpgX => 2,
            AddressingMode::ZpgY => 2,
        }
    }
}

/// The 56 official 6502 mnemonics.
#[derive(Debug, Copy, Clone, PartialEq, Eq, Structural)]
pub enum Instruction {
    ADC,
    AND,
    ASL,
    BCC,
    BCS,
    BEQ,
    BIT,
    BMI,
    BNE,
    BPL,
    BRK,
    BVC,
    BVS,
    CLC,
    CLD,
    CLI,
    CLV,
    CMP,
    CPX,
    CPY,
    DEC,
    DEX,
    DEY,
    EOR,
    INC,
    INX,
    INY,
    JMP,
    JSR,
    LDA,
    LDX,
    LDY,
    LSR,
    NOP,
    ORA,
    PHA,
    PHP,
    PLA,
    PLP,
    ROL,
    ROR,
    RTI,
    RTS,
    SBC,
    SEC,
    SED,
    SEI,
    STA,
    STX,
    STY,
    TAX,
    TAY,
    TSX,
    TXA,
    TXS,
    TYA,
}

/// One row of the instruction table.
#[derive(Debug, Copy, Clone, PartialEq, Eq, Structural)]
pub struct Opcode {
    pub code: u8,
    pub instr: Instruction,
    pub mode: AddressingMode,
    pub cycles: u8,
    pub cross_cycle: bool,
}

/// The given mnemonic is one of the eight conditional branches; the table
/// pairs each of them with relative addressing.
pub open spec fn spec_is_branch_instruction(instr: Instruction) -> bool {
    match instr {
        Instruction::BCC => true,
        Instruction::BCS => true,
        Instruction::BEQ => true,
        Instruction::BMI => true,
        Instruction::BNE => true,
        Instruction::BPL => true,
        Instruction::BVC => true,
        Instruction::BVS => true,
        _ => false,
    }
}

/// The instruction table as a mapping from opcode byte to its row; undefined
/// opcode bytes map to `None`.
pub open spec fn spec_opcode(code: u8) -> Option<Opcode> {
    match code {
        0x00 => Some(Opcode { code: 0x00, instr: Instruction::BRK, mode: AddressingMode::Imm, cycles: 7, cross_cycle: false }),
        0x01 => Some(Opcode { code: 0x01, instr: Instruction::ORA, mode: AddressingMode::XInd, cycles: 6, cross_cycle: false }),
        0x05 => Some(Opcode { code: 0x05, instr: Instruction::ORA, mode: AddressingMode::Zpg, cycles: 3, cross_cycle: false }),
        0x06 => Some(Opcode { code: 0x06, instr: Instruction::ASL, mode: AddressingMode::Zpg, cycles: 5, cross_cycle: false }),
        0x08 => Some(Opcode { code: 0x08, instr: Instruction::PHP, mode: AddressingMode::Impl, cycles: 3, cross_cycle: false }),
        0x09 => Some(Opcode { code: 0x09, instr: Instruction::ORA, mode: AddressingMode::Imm, cycles: 2, cross_cycle: false }),
        0x0a => Some(Opcode { code: 0x0a, instr: Instruction::ASL, mode: AddressingMode::Acc, cycles: 2, cross_cycle: false }),
        0x0d => Some(Opcode { code: 0x0d, instr: Instruction::ORA, mode: AddressingMode::Abs, cycles: 4, cross_cycle: false }),
        0x0e => Some(Opcode { code: 0x0e, instr: Instruction::ASL, mode: AddressingMode::Abs, cycles: 6, cross_cycle: false }),
        0x10 => Some(Opcode { code: 0x10, instr: Instruction::BPL, mode: AddressingMode::Rel, cycles: 2, cross_cycle: true }),
        0x11 => Some(Opcode { code: 0x11, instr: Instruction::ORA, mode: AddressingMode::IndY, cycles: 5, cross_cycle: true }),
        0x15 => Some(Opcode { code: 0x15, instr: Instruction::ORA, mode: AddressingMode::ZpgX, cycles: 4, cross_cycle: false }),
        0x16 => Some(Opcode { code: 0x16, instr: Instruction::ASL, mode: AddressingMode::ZpgX, cycles: 6, cross_cycle: false }),
        0x18 => Some(Opcode { code: 0x18, instr: Instruction::CLC, mode: AddressingMode::Impl, cycles: 2, cross_cycle: false }),
        0x19 => Some(Opcode { code: 0x19, instr: Instruction::ORA, mode: AddressingMode::AbsY, cycles: 4, cross_cycle: true }),
        0x1d => Some(Opcode { code: 0x1d, instr: Instruction::ORA, mode: AddressingMode::AbsX, cycles: 4, cross_cycle: true }),
        0x1e => Some(Opcode { code: 0x1e, instr: Instruction::ASL, mode: AddressingMode::AbsX, cycles: 7, cross_cycle: false }),
        0x20 => Some(Opcode { code: 0x20, instr: Instruction::JSR, mode: AddressingMode::Abs, cycles: 6, cross_cycle: false }),
        0x21 => Some(Opcode { code: 0x21, instr: Instruction::AND, mode: AddressingMode::XInd, cycles: 6, cross_cycle: false }),
        0x24 => Some(Opcode { code: 0x24, instr: Instruction::BIT, mode: AddressingMode::Zpg, cycles: 3, cross_cycle: false }),
        0x25 => Some(Opcode { code: 0x25, instr: Instruction::AND, mode: AddressingMode::Zpg, cycles: 3, cross_cycle: false }),
        0x26 => Some(Opcode { code: 0x26, instr: Instruction::ROL, mode: AddressingMode::Zpg, cycles: 5, cross_cycle: false }),
        0x28 => Some(Opcode { code: 0x28, instr: Instruction::PLP, mode: AddressingMode::Impl, cycles: 4, cross_cycle: false }),
        0x29 => Some(Opcode { code: 0x29, instr: Instruction::AND, mode: AddressingMode::Imm, cycles: 2, cross_cycle: false }),
        0x2a => Some(Opcode { code: 0x2a, instr: Instruction::ROL, mode: AddressingMode::Acc, cycles: 2, cross_cycle: false }),
        0x2c => Some(Opcode { code: 0x2c, instr: Instruction::BIT, mode: AddressingMode::Abs, cycles: 4, cross_cycle: false }),
        0x2d => Some(Opcode { code: 0x2d, instr: Instruction::AND, mode: AddressingMode::Abs, cycles: 4, cross_cycle: false }),
        0x2e => Some(Opcode { code: 0x2e, instr: Instruction::ROL, mode: AddressingMode::Abs, cycles: 6, cross_cycle: false }),
        0x30 => Some(Opcode { code: 0x30, instr: Instruction::BMI, mode: AddressingMode::Rel, cycles: 2, cross_cycle: true }),
        0x31 => Some(Opcode { code: 0x31, instr: Instruction::AND, mode: AddressingMode::IndY, cycles: 5, cross_cycle: true }),
        0x35 => Some(Opcode { code: 0x35, instr: Instruction::AND, mode: AddressingMode::ZpgX, cycles: 4, cross_cycle: false }),
        0x36 => Some(Opcode { code: 0x36, instr: Instruction::ROL, mode: AddressingMode::ZpgX, cycles: 6, cross_cycle: false }),
        0x38 => Some(Opcode { code: 0x38, instr: Instruction::SEC, mode: AddressingMode::Impl, cycles: 2, cross_cycle: false }),
        0x39 => Some(Opcode { code: 0x39, instr: Instruction::AND, mode: AddressingMode::AbsY, cycles: 4, cross_cycle: true }),
        0x3d => Some(Opcode { code: 0x3d, instr: Instruction::AND, mode: AddressingMode::AbsX, cycles: 4, cross_cycle: true }),
        0x3e => Some(Opcode { code: 0x3e, instr: Instruction::ROL, mode: AddressingMode::AbsX, cycles: 7, cross_cycle: false }),
        0x40 => Some(Opcode { code: 0x40, instr: Instruction::RTI, mode: AddressingMode::Impl, cycles: 6, cross_cycle: false }),
        0x41 => Some(Opcode { code: 0x41, instr: Instruction::EOR, mode: AddressingMode::XInd, cycles: 6, cross_cycle: false }),
        0x45 => Some(Opcode { code: 0x45, instr: Instruction::EOR, mode: AddressingMode::Zpg, cycles: 3, cross_cycle: false }),
        0x46 => Some(Opcode { code: 0x46, instr: Instruction::LSR, mode: AddressingMode::Zpg, cycles: 5, cross_cycle: false }),
        0x48 => Some(Opcode { code: 0x48, instr: Instruction::PHA, mode: AddressingMode::Impl, cycles: 3, cross_cycle: false }),
        0x49 => Some(Opcode { code: 0x49, instr: Instruction::EOR, mode: AddressingMode::Imm, cycles: 2, cross_cycle: false }),
        0x4a => Some(Opcode { code: 0x4a, instr: Instruction::LSR, mode: AddressingMode::Acc, cycles: 2, cross_cycle: false }),
        0x4c => Some(Opcode { code: 0x4c, instr: Instruction::JMP, mode: AddressingMode::Abs, cycles: 3, cross_cycle: false }),
        0x4d => Some(Opcode { code: 0x4d, instr: Instruction::EOR, mode: AddressingMode::Abs, cycles: 4, cross_cycle: false }),
        0x4e => Some(Opcode { code: 0x4e, instr: Instruction::LSR, mode: AddressingMode::Abs, cycles: 6, cross_cycle: false }),
        0x50 => Some(Opcode { code: 0x50, instr: Instruction::BVC, mode: AddressingMode::Rel, cycles: 2, cross_cycle: true }),
        0x51 => Some(Opcode { code: 0x51, instr: Instruction::EOR, mode: AddressingMode::IndY, cycles: 5, cross_cycle: true }),
        0x55 => Some(Opcode { code: 0x55, instr: Instruction::EOR, mode: AddressingMode::ZpgX, cycles: 4, cross_cycle: false }),
        0x56 => Some(Opcode { code: 0x56, instr: Instruction::LSR, mode: AddressingMode::ZpgX, cycles: 6, cross_cycle: false }),
        0x58 => Some(Opcode { code: 0x58, instr: Instruction::CLI, mode: AddressingMode::Impl, cycles: 2, cross_cycle: false }),
        0x59 => Some(Opcode { code: 0x59, instr: Instruction::EOR, mode: AddressingMode::AbsY, cycles: 4, cross_cycle: true }),
        0x5d => Some(Opcode { code: 0x5d, instr: Instruction::EOR, mode: AddressingMode::AbsX, cycles: 4, cross_cycle: true }),
        0x5e => Some(Opcode { code: 0x5e, instr: Instruction::LSR, mode: AddressingMode::AbsX, cycles: 7, cross_cycle: false }),
        0x60 => Some(Opcode { code: 0x60, instr: Instruction::RTS, mode: AddressingMode::Impl, cycles: 6, cross_cycle: false }),
        0x61 => Some(Opcode { code: 0x61, instr: Instruction::ADC, mode: AddressingMode::XInd, cycles: 6, cross_cycle: false }),
        0x65 => Some(Opcode { code: 0x65, instr: Instruction::ADC, mode: AddressingMode::Zpg, cycles: 3, cross_cycle: false }),
        0x66 => Some(Opcode { code: 0x66, instr: Instruction::ROR, mode: AddressingMode::Zpg, cycles: 5, cross_cycle: false }),
        0x68 => Some(Opcode { code: 0x68, instr: Instruction::PLA, mode: AddressingMode::Impl, cycles: 4, cross_cycle: false }),
        0x69 => Some(Opcode { code: 0x69, instr: Instruction::ADC, mode: AddressingMode::Imm, cycles: 2, cross_cycle: false }),
        0x6a => Some(Opcode { code: 0x6a, instr: Instruction::ROR, mode: AddressingMode::Acc, cycles: 2, cross_cycle: false }),
        0x6c => Some(Opcode { code: 0x6c, instr: Instruction::JMP, mode: AddressingMode::Ind, cycles: 5, cross_cycle: false }),
        0x6d => Some(Opcode { code: 0x6d, instr: Instruction::ADC, mode: AddressingMode::Abs, cycles: 4, cross_cycle: false }),
        0x6e => Some(Opcode { code: 0x6e, instr: Instruction::ROR, mode: AddressingMode::Abs, cycles: 6, cross_cycle: false }),
        0x70 => Some(Opcode { code: 0x70, instr: Instruction::BVS, mode: AddressingMode::Rel, cycles: 2, cross_cycle: true }),
        0x71 => Some(Opcode { code: 0x71, instr: Instruction::ADC, mode: AddressingMode::IndY, cycles: 5, cross_cycle: true }),
        0x75 => Some(Opcode { code: 0x75, instr: Instruction::ADC, mode: AddressingMode::ZpgX, cycles: 4, cross_cycle: false }),
        0x76 => Some(Opcode { code: 0x76, instr: Instruction::ROR, mode: AddressingMode::ZpgX, cycles: 6, cross_cycle: false }),
        0x78 => Some(Opcode { code: 0x78, instr: Instruction::SEI, mode: AddressingMode::Impl, cycles: 2, cross_cycle: false }),
        0x79 => Some(Opcode { code: 0x79, instr: Instruction::ADC, mode: AddressingMode::AbsY, cycles: 4, cross_cycle: true }),
        0x7d => Some(Opcode { code: 0x7d, instr: Instruction::ADC, mode: AddressingMode::AbsX, cycles: 4, cross_cycle: true }),
        0x7e => Some(Opcode { code: 0x7e, instr: Instruction::ROR, mode: AddressingMode::AbsX, cycles: 7, cross_cycle: false }),
        0x81 => Some(Opcode { code: 0x81, instr: Instruction::STA, mode: AddressingMode::XInd, cycles: 6, cross_cycle: false }),
        0x84 => Some(Opcode { code: 0x84, instr: Instruction::STY, mode: AddressingMode::Zpg, cycles: 3, cross_cycle: false }),
        0x85 => Some(Opcode { code: 0x85, instr: Instruction::STA, mode: AddressingMode::Zpg, cycles: 3, cross_cycle: false }),
        0x86 => Some(Opcode { code: 0x86, instr: Instruction::STX, mode: AddressingMode::Zpg, cycles: 3, cross_cycle: false }),
        0x88 => Some(Opcode { code: 0x88, instr: Instruction::DEY, mode: AddressingMode::Impl, cycles: 2, cross_cycle: false }),
        0x8a => Some(Opcode { code: 0x8a, instr: Instruction::TXA, mode: AddressingMode::Impl, cycles: 2, cross_cycle: false }),
        0x8c => Some(Opcode { code: 0x8c, instr: Instruction::STY, mode: AddressingMode::Abs, cycles: 4, cross_cycle: false }),
        0x8d => Some(Opcode { code: 0x8d, instr: Instruction::STA, mode: AddressingMode::Abs, cycles: 4, cross_cycle: false }),
        0x8e => Some(Opcode { code: 0x8e, instr: Instruction::STX, mode: AddressingMode::Abs, cycles: 4, cross_cycle: false }),
        0x90 => Some(Opcode { code: 0x90, instr: Instruction::BCC, mode: AddressingMode::Rel, cycles: 2, cross_cycle: true }),
        0x91 => Some(Opcode { code: 0x91, instr: Instruction::STA, mode: AddressingMode::IndY, cycles: 6, cross_cycle: false }),
        0x94 => Some(Opcode { code: 0x94, instr: Instruction::STY, mode: AddressingMode::ZpgX, cycles: 4, cross_cycle: false }),
        0x95 => Some(Opcode { code: 0x95, instr: Instruction::STA, mode: AddressingMode::ZpgX, cycles: 4, cross_cycle: false }),
        0x96 => Some(Opcode { code: 0x96, instr: Instruction::STX, mode: AddressingMode::ZpgY, cycles: 4, cross_cycle: false }),
        0x98 => Some(Opcode { code: 0x98, instr: Instruction::TYA, mode: AddressingMode::Impl, cycles: 2, cross_cycle: false }),
        0x99 => Some(Opcode { code: 0x99, instr: Instruction::STA, mode: AddressingMode::AbsY, cycles: 5, cross_cycle: false }),
        0x9a => Some(Opcode { code: 0x9a, instr: Instruction::TXS, mode: AddressingMode::Impl, cycles: 2, cross_cycle: false }),
        0x9d => Some(Opcode { code: 0x9d, instr: Instruction::STA, mode: AddressingMode::AbsX, cycles: 5, cross_cycle: false }),
        0xa0 => Some(Opcode { code: 0xa0, instr: Instruction::LDY, mode: AddressingMode::Imm, cycles: 2, cross_cycle: false }),
        0xa1 => Some(Opcode { code: 0xa1, instr: Instruction::LDA, mode: AddressingMode::XInd, cycles: 6, cross_cycle: false }),
        0xa2 => Some(Opcode { code: 0xa2, instr: Instruction::LDX, mode: AddressingMode::Imm, cycles: 2, cross_cycle: false }),
        0xa4 => Some(Opcode { code: 0xa4, instr: Instruction::LDY, mode: AddressingMode::Zpg, cycles: 3, cross_cycle: false }),
        0xa5 => Some(Opcode { code: 0xa5, instr: Instruction::LDA, mode: AddressingMode::Zpg, cycles: 3, cross_cycle: false }),
        0xa6 => Some(Opcode { code: 0xa6, instr: Instruction::LDX, mode: AddressingMode::Zpg, cycles: 3, cross_cycle: false }),
        0xa8 => Some(Opcode { code: 0xa8, instr: Instruction::TAY, mode: AddressingMode::Impl, cycles: 2, cross_cycle: false }),
        0xa9 => Some(Opcode { code: 0xa9, instr: Instruction::LDA, mode: AddressingMode::Imm, cycles: 2, cross_cycle: false }),
        0xaa => Some(Opcode { code: 0xaa, instr: Instruction::TAX, mode: AddressingMode::Impl, cycles: 2, cross_cycle: false }),
        0xac => Some(Opcode { code: 0xac, instr: Instruction::LDY, mode: AddressingMode::Abs, cycles: 4, cross_cycle: false }),
        0xad => Some(Opcode { code: 0xad, instr: Instruction::LDA, mode: AddressingMode::Abs, cycles: 4, cross_cycle: false }),
        0xae => Some(Opcode { code: 0xae, instr: Instruction::LDX, mode: AddressingMode::Abs, cycles: 4, cross_cycle: false }),
        0xb0 => Some(Opcode { code: 0xb0, instr: Instruction::BCS, mode: AddressingMode::Rel, cycles: 2, cross_cycle: true }),
        0xb1 => Some(Opcode { code: 0xb1, instr: Instruction::LDA, mode: AddressingMode::IndY, cycles: 5, cross_cycle: true }),
        0xb4 => Some(Opcode { code: 0xb4, instr: Instruction::LDY, mode: AddressingMode::ZpgX, cycles: 4, cross_cycle: false }),
        0xb5 => Some(Opcode { code: 0xb5, instr: Instruction::LDA, mode: AddressingMode::ZpgX, cycles: 4, cross_cycle: false }),
        0xb6 => Some(Opcode { code: 0xb6, instr: Instruction::LDX, mode: AddressingMode::ZpgY, cycles: 4, cross_cycle: false }),
        0xb8 => Some(Opcode { code: 0xb8, instr: Instruction::CLV, mode: AddressingMode::Impl, cycles: 2, cross_cycle: false }),
        0xb9 => Some(Opcode { code: 0xb9, instr: Instruction::LDA, mode: AddressingMode::AbsY, cycles: 4, cross_cycle: true }),
        0xba => Some(Opcode { code: 0xba, instr: Instruction::TSX, mode: AddressingMode::Impl, cycles: 2, cross_cycle: false }),
        0xbc => Some(Opcode { code: 0xbc, instr: Instruction::LDY, mode: AddressingMode::AbsX, cycles: 4, cross_cycle: true }),
        0xbd => Some(Opcode { code: 0xbd, instr: Instruction::LDA, mode: AddressingMode::AbsX, cycles: 4, cross_cycle: true }),
        0xbe => Some(Opcode { code: 0xbe, instr: Instruction::LDX, mode: AddressingMode::AbsY, cycles: 4, cross_cycle: true }),
        0xc0 => Some(Opcode { code: 0xc0, instr: Instruction::CPY, mode: AddressingMode::Imm, cycles: 2, cross_cycle: false }),
        0xc1 => Some(Opcode { code: 0xc1, instr: Instruction::CMP, mode: AddressingMode::XInd, cycles: 6, cross_cycle: false }),
        0xc4 => Some(Opcode { code: 0xc4, instr: Instruction::CPY, mode: AddressingMode::Zpg, cycles: 3, cross_cycle: false }),
        0xc5 => Some(Opcode { code: 0xc5, instr: Instruction::CMP, mode: AddressingMode::Zpg, cycles: 3, cross_cycle: false }),
        0xc6 => Some(Opcode { code: 0xc6, instr: Instruction::DEC, mode: AddressingMode::Zpg, cycles: 5, cross_cycle: false }),
        0xc8 => Some(Opcode { code: 0xc8, instr: Instruction::INY, mode: AddressingMode::Impl, cycles: 2, cross_cycle: false }),
        0xc9 => Some(Opcode { code: 0xc9, instr: Instruction::CMP, mode: AddressingMode::Imm, cycles: 2, cross_cycle: false }),
        0xca => Some(Opcode { code: 0xca, instr: Instruction::DEX, mode: AddressingMode::Impl, cycles: 2, cross_cycle: false }),
        0xcc => Some(Opcode { code: 0xcc, instr: Instruction::CPY, mode: AddressingMode::Abs, cycles: 4, cross_cycle: false }),
        0xcd => Some(Opcode { code: 0xcd, instr: Instruction::CMP, mode: AddressingMode::Abs, cycles: 4, cross_cycle: false }),
        0xce => Some(Opcode { code: 0xce, instr: Instruction::DEC, mode: AddressingMode::Abs, cycles: 6, cross_cycle: false }),
        0xd0 => Some(Opcode { code: 0xd0, instr: Instruction::BNE, mode: AddressingMode::Rel, cycles: 2, cross_cycle: true }),
        0xd1 => Some(Opcode { code: 0xd1, instr: Instruction::CMP, mode: AddressingMode::IndY, cycles: 5, cross_cycle: true }),
        0xd5 => Some(Opcode { code: 0xd5, instr: Instruction::CMP, mode: AddressingMode::ZpgX, cycles: 4, cross_cycle: false }),
        0xd6 => Some(Opcode { code: 0xd6, instr: Instruction::DEC, mode: AddressingMode::ZpgX, cycles: 6, cross_cycle: false }),
        0xd8 => Some(Opcode { code: 0xd8, instr: Instruction::CLD, mode: AddressingMode::Impl, cycles: 2, cross_cycle: false }),
        0xd9 => Some(Opcode { code: 0xd9, instr: Instruction::CMP, mode: AddressingMode::AbsY, cycles: 4, cross_cycle: true }),
        0xdd => Some(Opcode { code: 0xdd, instr: Instruction::CMP, mode: AddressingMode::AbsX, cycles: 4, cross_cycle: true }),
        0xde => Some(Opcode { code: 0xde, instr: Instruction::DEC, mode: AddressingMode::AbsX, cycles: 7, cross_cycle: false }),
        0xe0 => Some(Opcode { code: 0xe0, instr: Instruction::CPX, mode: AddressingMode::Imm, cycles: 2, cross_cycle: false }),
        0xe1 => Some(Opcode { code: 0xe1, instr: Instruction::SBC, mode: AddressingMode::XInd, cycles: 6, cross_cycle: false }),
        0xe4 => Some(Opcode { code: 0xe4, instr: Instruction::CPX, mode: AddressingMode::Zpg, cycles: 3, cross_cycle: false }),
        0xe5 => Some(Opcode { code: 0xe5, instr: Instruction::SBC, mode: AddressingMode::Zpg, cycles: 3, cross_cycle: false }),
        0xe6 => Some(Opcode { code: 0xe6, instr: Instruction::INC, mode: AddressingMode::Zpg, cycles: 5, cross_cycle: false }),
        0xe8 => Some(Opcode { code: 0xe8, instr: Instruction::INX, mode: AddressingMode::Impl, cycles: 2, cross_cycle: false }),
        0xe9 => Some(Opcode { code: 0xe9, instr: Instruction::SBC, mode: AddressingMode::Imm, cycles: 2, cross_cycle: false }),
        0xea => Some(Opcode { code: 0xea, instr: Instruction::NOP, mode: AddressingMode::Impl, cycles: 2, cross_cycle: false }),
        0xec => Some(Opcode { code: 0xec, instr: Instruction::CPX, mode: AddressingMode::Abs, cycles: 4, cross_cycle: false }),
        0xed => Some(Opcode { code: 0xed, instr: Instruction::SBC, mode: AddressingMode::Abs, cycles: 4, cross_cycle: false }),
        0xee => Some(Opcode { code: 0xee, instr: Instruction::INC, mode: AddressingMode::Abs, cycles: 6, cross_cycle: false }),
        0xf0 => Some(Opcode { code: 0xf0, instr: Instruction::BEQ, mode: AddressingMode::Rel, cycles: 2, cross_cycle: true }),
        0xf1 => Some(Opcode { code: 0xf1, instr: Instruction::SBC, mode: AddressingMode::IndY, cycles: 5, cross_cycle: true }),
        0xf5 => Some(Opcode { code: 0xf5, instr: Instruction::SBC, mode: AddressingMode::ZpgX, cycles: 4, cross_cycle: false }),
        0xf6 => Some(Opcode { code: 0xf6, instr: Instruction::INC, mode: AddressingMode::ZpgX, cycles: 6, cross_cycle: false }),
        0xf8 => Some(Opcode { code: 0xf8, instr: Instruction::SED, mode: AddressingMode::Impl, cycles: 2, cross_cycle: false }),
        0xf9 => Some(Opcode { code: 0xf9, instr: Instruction::SBC, mode: AddressingMode::AbsY, cycles: 4, cross_cycle: true }),
        0xfd => Some(Opcode { code: 0xfd, instr: Instruction::SBC, mode: AddressingMode::AbsX, cycles: 4, cross_cycle: true }),
        0xfe => Some(Opcode { code: 0xfe, instr: Instruction::INC, mode: AddressingMode::AbsX, cycles: 7, cross_cycle: false }),
        _ => None,
    }
}

impl Opcode {
    /// Looks up the table row for an opcode byte.
    pub fn lookup(code: u8) -> (r: Option<Opcode>)
        ensures
            r == spec_opcode(code),
            r is Some ==> 2 <= r->Some_0.cycles <= 7,
            r is Some && spec_is_branch_instruction(r->Some_0.instr) ==> r->Some_0.mode
                == AddressingMode::Rel,
    {
        match code {
            0x00 => Some(Opcode { code: 0x00, instr: Instruction::BRK, mode: AddressingMode::Imm, cycles: 7, cross_cycle: false }),
            0x01 => Some(Opcode { code: 0x01, instr: Instruction::ORA, mode: AddressingMode::XInd, cycles: 6, cross_cycle: false }),
            0x05 => Some(Opcode { code: 0x05, instr: Instruction::ORA, mode: AddressingMode::Zpg, cycles: 3, cross_cycle: false }),
            0x06 => Some(Opcode { code: 0x06, instr: Instruction::ASL, mode: AddressingMode::Zpg, cycles: 5, cross_cycle: false }),
            0x08 => Some(Opcode { code: 0x08, instr: Instruction::PHP, mode: AddressingMode::Impl, cycles: 3, cross_cycle: false }),
            0x09 => Some(Opcode { code: 0x09, instr: Instruction::ORA, mode: AddressingMode::Imm, cycles: 2, cross_cycle: false }),
            0x0a => Some(Opcode { code: 0x0a, instr: Instruction::ASL, mode: AddressingMode::Acc, cycles: 2, cross_cycle: false }),
            0x0d => Some(Opcode { code: 0x0d, instr: Instruction::ORA, mode: AddressingMode::Abs, cycles: 4, cross_cycle: false }),
            0x0e => Some(Opcode { code: 0x0e, instr: Instruction::ASL, mode: AddressingMode::Abs, cycles: 6, cross_cycle: false }),
            0x10 => Some(Opcode { code: 0x10, instr: Instruction::BPL, mode: AddressingMode::Rel, cycles: 2, cross_cycle: true }),
            0x11 => Some(Opcode { code: 0x11, instr: Instruction::ORA, mode: AddressingMode::IndY, cycles: 5, cross_cycle: true }),
            0x15 => Some(Opcode { code: 0x15, instr: Instruction::ORA, mode: AddressingMode::ZpgX, cycles: 4, cross_cycle: false }),
            0x16 => Some(Opcode { code: 0x16, instr: Instruction::ASL, mode: AddressingMode::ZpgX, cycles: 6, cross_cycle: false }),
            0x18 => Some(Opcode { code: 0x18, instr: Instruction::CLC, mode: AddressingMode::Impl, cycles: 2, cross_cycle: false }),
            0x19 => Some(Opcode { code: 0x19, instr: Instruction::ORA, mode: AddressingMode::AbsY, cycles: 4, cross_cycle: true }),
            0x1d => Some(Opcode { code: 0x1d, instr: Instruction::ORA, mode: AddressingMode::AbsX, cycles: 4, cross_cycle: true }),
            0x1e => Some(Opcode { code: 0x1e, instr: Instruction::ASL, mode: AddressingMode::AbsX, cycles: 7, cross_cycle: false }),
            0x20 => Some(Opcode { code: 0x20, instr: Instruction::JSR, mode: AddressingMode::Abs, cycles: 6, cross_cycle: false }),
            0x21 => Some(Opcode { code: 0x21, instr: Instruction::AND, mode: AddressingMode::XInd, cycles: 6, cross_cycle: false }),
            0x24 => Some(Opcode { code: 0x24, instr: Instruction::BIT, mode: AddressingMode::Zpg, cycles: 3, cross_cycle: false }),
            0x25 => Some(Opcode { code: 0x25, instr: Instruction::AND, mode: AddressingMode::Zpg, cycles: 3, cross_cycle: false }),
            0x26 => Some(Opcode { code: 0x26, instr: Instruction::ROL, mode: AddressingMode::Zpg, cycles: 5, cross_cycle: false }),
            0x28 => Some(Opcode { code: 0x28, instr: Instruction::PLP, mode: AddressingMode::Impl, cycles: 4, cross_cycle: false }),
            0x29 => Some(Opcode { code: 0x29, instr: Instruction::AND, mode: AddressingMode::Imm, cycles: 2, cross_cycle: false }),
            0x2a => Some(Opcode { code: 0x2a, instr: Instruction::ROL, mode: AddressingMode::Acc, cycles: 2, cross_cycle: false }),
            0x2c => Some(Opcode { code: 0x2c, instr: Instruction::BIT, mode: AddressingMode::Abs, cycles: 4, cross_cycle: false }),
            0x2d => Some(Opcode { code: 0x2d, instr: Instruction::AND, mode: AddressingMode::Abs, cycles: 4, cross_cycle: false }),
            0x2e => Some(Opcode { code: 0x2e, instr: Instruction::ROL, mode: AddressingMode::Abs, cycles: 6, cross_cycle: false }),
            0x30 => Some(Opcode { code: 0x30, instr: Instruction::BMI, mode: AddressingMode::Rel, cycles: 2, cross_cycle: true }),
            0x31 => Some(Opcode { code: 0x31, instr: Instruction::AND, mode: AddressingMode::IndY, cycles: 5, cross_cycle: true }),
            0x35 => Some(Opcode { code: 0x35, instr: Instruction::AND, mode: AddressingMode::ZpgX, cycles: 4, cross_cycle: false }),
            0x36 => Some(Opcode { code: 0x36, instr: Instruction::ROL, mode: AddressingMode::ZpgX, cycles: 6, cross_cycle: false }),
            0x38 => Some(Opcode { code: 0x38, instr: Instruction::SEC, mode: AddressingMode::Impl, cycles: 2, cross_cycle: false }),
            0x39 => Some(Opcode { code: 0x39, instr: Instruction::AND, mode: AddressingMode::AbsY, cycles: 4, cross_cycle: true }),
            0x3d => Some(Opcode { code: 0x3d, instr: Instruction::AND, mode: AddressingMode::AbsX, cycles: 4, cross_cycle: true }),
            0x3e => Some(Opcode { code: 0x3e, instr: Instruction::ROL, mode: AddressingMode::AbsX, cycles: 7, cross_cycle: false }),
            0x40 => Some(Opcode { code: 0x40, instr: Instruction::RTI, mode: AddressingMode::Impl, cycles: 6, cross_cycle: false }),
            0x41 => Some(Opcode { code: 0x41, instr: Instruction::EOR, mode: AddressingMode::XInd, cycles: 6, cross_cycle: false }),
            0x45 => Some(Opcode { code: 0x45, instr: Instruction::EOR, mode: AddressingMode::Zpg, cycles: 3, cross_cycle: false }),
            0x46 => Some(Opcode { code: 0x46, instr: Instruction::LSR, mode: AddressingMode::Zpg, cycles: 5, cross_cycle: false }),
            0x48 => Some(Opcode { code: 0x48, instr: Instruction::PHA, mode: AddressingMode::Impl, cycles: 3, cross_cycle: false }),
            0x49 => Some(Opcode { code: 0x49, instr: Instruction::EOR, mode: AddressingMode::Imm, cycles: 2, cross_cycle: false }),
            0x4a => Some(Opcode { code: 0x4a, instr: Instruction::LSR, mode: AddressingMode::Acc, cycles: 2, cross_cycle: false }),
            0x4c => Some(Opcode { code: 0x4c, instr: Instruction::JMP, mode: AddressingMode::Abs, cycles: 3, cross_cycle: false }),
            0x4d => Some(Opcode { code: 0x4d, instr: Instruction::EOR, mode: AddressingMode::Abs, cycles: 4, cross_cycle: false }),
            0x4e => Some(Opcode { code: 0x4e, instr: Instruction::LSR, mode: AddressingMode::Abs, cycles: 6, cross_cycle: false }),
            0x50 => Some(Opcode { code: 0x50, instr: Instruction::BVC, mode: AddressingMode::Rel, cycles: 2, cross_cycle: true }),
            0x51 => Some(Opcode { code: 0x51, instr: Instruction::EOR, mode: AddressingMode::IndY, cycles: 5, cross_cycle: true }),
            0x55 => Some(Opcode { code: 0x55, instr: Instruction::EOR, mode: AddressingMode::ZpgX, cycles: 4, cross_cycle: false }),
            0x56 => Some(Opcode { code: 0x56, instr: Instruction::LSR, mode: AddressingMode::ZpgX, cycles: 6, cross_cycle: false }),
            0x58 => Some(Opcode { code: 0x58, instr: Instruction::CLI, mode: AddressingMode::Impl, cycles: 2, cross_cycle: false }),
            0x59 => Some(Opcode { code: 0x59, instr: Instruction::EOR, mode: AddressingMode::AbsY, cycles: 4, cross_cycle: true }),
            0x5d => Some(Opcode { code: 0x5d, instr: Instruction::EOR, mode: AddressingMode::AbsX, cycles: 4, cross_cycle: true }),
            0x5e => Some(Opcode { code: 0x5e, instr: Instruction::LSR, mode: AddressingMode::AbsX, cycles: 7, cross_cycle: false }),
            0x60 => Some(Opcode { code: 0x60, instr: Instruction::RTS, mode: AddressingMode::Impl, cycles: 6, cross_cycle: false }),
            0x61 => Some(Opcode { code: 0x61, instr: Instruction::ADC, mode: AddressingMode::XInd, cycles: 6, cross_cycle: false }),
            0x65 => Some(Opcode { code: 0x65, instr: Instruction::ADC, mode: AddressingMode::Zpg, cycles: 3, cross_cycle: false }),
            0x66 => Some(Opcode { code: 0x66, instr: Instruction::ROR, mode: AddressingMode::Zpg, cycles: 5, cross_cycle: false }),
            0x68 => Some(Opcode { code: 0x68, instr: Instruction::PLA, mode: AddressingMode::Impl, cycles: 4, cross_cycle: false }),
            0x69 => Some(Opcode { code: 0x69, instr: Instruction::ADC, mode: AddressingMode::Imm, cycles: 2, cross_cycle: false }),
            0x6a => Some(Opcode { code: 0x6a, instr: Instruction::ROR, mode: AddressingMode::Acc, cycles: 2, cross_cycle: false }),
            0x6c => Some(Opcode { code: 0x6c, instr: Instruction::JMP, mode: AddressingMode::Ind, cycles: 5, cross_cycle: false }),
            0x6d => Some(Opcode { code: 0x6d, instr: Instruction::ADC, mode: AddressingMode::Abs, cycles: 4, cross_cycle: false }),
            0x6e => Some(Opcode { code: 0x6e, instr: Instruction::ROR, mode: AddressingMode::Abs, cycles: 6, cross_cycle: false }),
            0x70 => Some(Opcode { code: 0x70, instr: Instruction::BVS, mode: AddressingMode::Rel, cycles: 2, cross_cycle: true }),
            0x71 => Some(Opcode { code: 0x71, instr: Instruction::ADC, mode: AddressingMode::IndY, cycles: 5, cross_cycle: true }),
            0x75 => Some(Opcode { code: 0x75, instr: Instruction::ADC, mode: AddressingMode::ZpgX, cycles: 4, cross_cycle: false }),
            0x76 => Some(Opcode { code: 0x76, instr: Instruction::ROR, mode: AddressingMode::ZpgX, cycles: 6, cross_cycle: false }),
            0x78 => Some(Opcode { code: 0x78, instr: Instruction::SEI, mode: AddressingMode::Impl, cycles: 2, cross_cycle: false }),
            0x79 => Some(Opcode { code: 0x79, instr: Instruction::ADC, mode: AddressingMode::AbsY, cycles: 4, cross_cycle: true }),
            0x7d => Some(Opcode { code: 0x7d, instr: Instruction::ADC, mode: AddressingMode::AbsX, cycles: 4, cross_cycle: true }),
            0x7e => Some(Opcode { code: 0x7e, instr: Instruction::ROR, mode: AddressingMode::AbsX, cycles: 7, cross_cycle: false }),
            0x81 => Some(Opcode { code: 0x81, instr: Instruction::STA, mode: AddressingMode::XInd, cycles: 6, cross_cycle: false }),
            0x84 => Some(Opcode { code: 0x84, instr: Instruction::STY, mode: AddressingMode::Zpg, cycles: 3, cross_cycle: false }),
            0x85 => Some(Opcode { code: 0x85, instr: Instruction::STA, mode: AddressingMode::Zpg, cycles: 3, cross_cycle: false }),
            0x86 => Some(Opcode { code: 0x86, instr: Instruction::STX, mode: AddressingMode::Zpg, cycles: 3, cross_cycle: false }),
            0x88 => Some(Opcode { code: 0x88, instr: Instruction::DEY, mode: AddressingMode::Impl, cycles: 2, cross_cycle: false }),
            0x8a => Some(Opcode { code: 0x8a, instr: Instruction::TXA, mode: AddressingMode::Impl, cycles: 2, cross_cycle: false }),
            0x8c => Some(Opcode { code: 0x8c, instr: Instruction::STY, mode: AddressingMode::Abs, cycles: 4, cross_cycle: false }),
            0x8d => Some(Opcode { code: 0x8d, instr: Instruction::STA, mode: AddressingMode::Abs, cycles: 4, cross_cycle: false }),
            0x8e => Some(Opcode { code: 0x8e, instr: Instruction::STX, mode: AddressingMode::Abs, cycles: 4, cross_cycle: false }),
            0x90 => Some(Opcode { code: 0x90, instr: Instruction::BCC, mode: AddressingMode::Rel, cycles: 2, cross_cycle: true }),
            0x91 => Some(Opcode { code: 0x91, instr: Instruction::STA, mode: AddressingMode::IndY, cycles: 6, cross_cycle: false }),
            0x94 => Some(Opcode { code: 0x94, instr: Instruction::STY, mode: AddressingMode::ZpgX, cycles: 4, cross_cycle: false }),
            0x95 => Some(Opcode { code: 0x95, instr: Instruction::STA, mode: AddressingMode::ZpgX, cycles: 4, cross_cycle: false }),
            0x96 => Some(Opcode { code: 0x96, instr: Instruction::STX, mode: AddressingMode::ZpgY, cycles: 4, cross_cycle: false }),
            0x98 => Some(Opcode { code: 0x98, instr: Instruction::TYA, mode: AddressingMode::Impl, cycles: 2, cross_cycle: false }),
            0x99 => Some(Opcode { code: 0x99, instr: Instruction::STA, mode: AddressingMode::AbsY, cycles: 5, cross_cycle: false }),
            0x9a => Some(Opcode { code: 0x9a, instr: Instruction::TXS, mode: AddressingMode::Impl, cycles: 2, cross_cycle: false }),
            0x9d => Some(Opcode { code: 0x9d, instr: Instruction::STA, mode: AddressingMode::AbsX, cycles: 5, cross_cycle: false }),
            0xa0 => Some(Opcode { code: 0xa0, instr: Instruction::LDY, mode: AddressingMode::Imm, cycles: 2, cross_cycle: false }),
            0xa1 => Some(Opcode { code: 0xa1, instr: Instruction::LDA, mode: AddressingMode::XInd, cycles: 6, cross_cycle: false }),
            0xa2 => Some(Opcode { code: 0xa2, instr: Instruction::LDX, mode: AddressingMode::Imm, cycles: 2, cross_cycle: false }),
            0xa4 => Some(Opcode { code: 0xa4, instr: Instruction::LDY, mode: AddressingMode::Zpg, cycles: 3, cross_cycle: false }),
            0xa5 => Some(Opcode { code: 0xa5, instr: Instruction::LDA, mode: AddressingMode::Zpg, cycles: 3, cross_cycle: false }),
            0xa6 => Some(Opcode { code: 0xa6, instr: Instruction::LDX, mode: AddressingMode::Zpg, cycles: 3, cross_cycle: false }),
            0xa8 => Some(Opcode { code: 0xa8, instr: Instruction::TAY, mode: AddressingMode::Impl, cycles: 2, cross_cycle: false }),
            0xa9 => Some(Opcode { code: 0xa9, instr: Instruction::LDA, mode: AddressingMode::Imm, cycles: 2, cross_cycle: false }),
            0xaa => Some(Opcode { code: 0xaa, instr: Instruction::TAX, mode: AddressingMode::Impl, cycles: 2, cross_cycle: false }),
            0xac => Some(Opcode { code: 0xac, instr: Instruction::LDY, mode: AddressingMode::Abs, cycles: 4, cross_cycle: false }),
            0xad => Some(Opcode { code: 0xad, instr: Instruction::LDA, mode: AddressingMode::Abs, cycles: 4, cross_cycle: false }),
            0xae => Some(Opcode { code: 0xae, instr: Instruction::LDX, mode: AddressingMode::Abs, cycles: 4, cross_cycle: false }),
            0xb0 => Some(Opcode { code: 0xb0, instr: Instruction::BCS, mode: AddressingMode::Rel, cycles: 2, cross_cycle: true }),
            0xb1 => Some(Opcode { code: 0xb1, instr: Instruction::LDA, mode: AddressingMode::IndY, cycles: 5, cross_cycle: true }),
            0xb4 => Some(Opcode { code: 0xb4, instr: Instruction::LDY, mode: AddressingMode::ZpgX, cycles: 4, cross_cycle: false }),
            0xb5 => Some(Opcode { code: 0xb5, instr: Instruction::LDA, mode: AddressingMode::ZpgX, cycles: 4, cross_cycle: false }),
            0xb6 => Some(Opcode { code: 0xb6, instr: Instruction::LDX, mode: AddressingMode::ZpgY, cycles: 4, cross_cycle: false }),
            0xb8 => Some(Opcode { code: 0xb8, instr: Instruction::CLV, mode: AddressingMode::Impl, cycles: 2, cross_cycle: false }),
            0xb9 => Some(Opcode { code: 0xb9, instr: Instruction::LDA, mode: AddressingMode::AbsY, cycles: 4, cross_cycle: true }),
            0xba => Some(Opcode { code: 0xba, instr: Instruction::TSX, mode: AddressingMode::Impl, cycles: 2, cross_cycle: false }),
            0xbc => Some(Opcode { code: 0xbc, instr: Instruction::LDY, mode: AddressingMode::AbsX, cycles: 4, cross_cycle: true }),
            0xbd => Some(Opcode { code: 0xbd, instr: Instruction::LDA, mode: AddressingMode::AbsX, cycles: 4, cross_cycle: true }),
            0xbe => Some(Opcode { code: 0xbe, instr: Instruction::LDX, mode: AddressingMode::AbsY, cycles: 4, cross_cycle: true }),
            0xc0 => Some(Opcode { code: 0xc0, instr: Instruction::CPY, mode: AddressingMode::Imm, cycles: 2, cross_cycle: false }),
            0xc1 => Some(Opcode { code: 0xc1, instr: Instruction::CMP, mode: AddressingMode::XInd, cycles: 6, cross_cycle: false }),
            0xc4 => Some(Opcode { code: 0xc4, instr: Instruction::CPY, mode: AddressingMode::Zpg, cycles: 3, cross_cycle: false }),
            0xc5 => Some(Opcode { code: 0xc5, instr: Instruction::CMP, mode: AddressingMode::Zpg, cycles: 3, cross_cycle: false }),
            0xc6 => Some(Opcode { code: 0xc6, instr: Instruction::DEC, mode: AddressingMode::Zpg, cycles: 5, cross_cycle: false }),
            0xc8 => Some(Opcode { code: 0xc8, instr: Instruction::INY, mode: AddressingMode::Impl, cycles: 2, cross_cycle: false }),
            0xc9 => Some(Opcode { code: 0xc9, instr: Instruction::CMP, mode: AddressingMode::Imm, cycles: 2, cross_cycle: false }),
            0xca => Some(Opcode { code: 0xca, instr: Instruction::DEX, mode: AddressingMode::Impl, cycles: 2, cross_cycle: false }),
            0xcc => Some(Opcode { code: 0xcc, instr: Instruction::CPY, mode: AddressingMode::Abs, cycles: 4, cross_cycle: false }),
            0xcd => Some(Opcode { code: 0xcd, instr: Instruction::CMP, mode: AddressingMode::Abs, cycles: 4, cross_cycle: false }),
            0xce => Some(Opcode { code: 0xce, instr: Instruction::DEC, mode: AddressingMode::Abs, cycles: 6, cross_cycle: false }),
            0xd0 => Some(Opcode { code: 0xd0, instr: Instruction::BNE, mode: AddressingMode::Rel, cycles: 2, cross_cycle: true }),
            0xd1 => Some(Opcode { code: 0xd1, instr: Instruction::CMP, mode: AddressingMode::IndY, cycles: 5, cross_cycle: true }),
            0xd5 => Some(Opcode { code: 0xd5, instr: Instruction::CMP, mode: AddressingMode::ZpgX, cycles: 4, cross_cycle: false }),
            0xd6 => Some(Opcode { code: 0xd6, instr: Instruction::DEC, mode: AddressingMode::ZpgX, cycles: 6, cross_cycle: false }),
            0xd8 => Some(Opcode { code: 0xd8, instr: Instruction::CLD, mode: AddressingMode::Impl, cycles: 2, cross_cycle: false }),
            0xd9 => Some(Opcode { code: 0xd9, instr: Instruction::CMP, mode: AddressingMode::AbsY, cycles: 4, cross_cycle: true }),
            0xdd => Some(Opcode { code: 0xdd, instr: Instruction::CMP, mode: AddressingMode::AbsX, cycles: 4, cross_cycle: true }),
            0xde => Some(Opcode { code: 0xde, instr: Instruction::DEC, mode: AddressingMode::AbsX, cycles: 7, cross_cycle: false }),
            0xe0 => Some(Opcode { code: 0xe0, instr: Instruction::CPX, mode: AddressingMode::Imm, cycles: 2, cross_cycle: false }),
            0xe1 => Some(Opcode { code: 0xe1, instr: Instruction::SBC, mode: AddressingMode::XInd, cycles: 6, cross_cycle: false }),
            0xe4 => Some(Opcode { code: 0xe4, instr: Instruction::CPX, mode: AddressingMode::Zpg, cycles: 3, cross_cycle: false }),
            0xe5 => Some(Opcode { code: 0xe5, instr: Instruction::SBC, mode: AddressingMode::Zpg, cycles: 3, cross_cycle: false }),
            0xe6 => Some(Opcode { code: 0xe6, instr: Instruction::INC, mode: AddressingMode::Zpg, cycles: 5, cross_cycle: false }),
            0xe8 => Some(Opcode { code: 0xe8, instr: Instruction::INX, mode: AddressingMode::Impl, cycles: 2, cross_cycle: false }),
            0xe9 => Some(Opcode { code: 0xe9, instr: Instruction::SBC, mode: AddressingMode::Imm, cycles: 2, cross_cycle: false }),
            0xea => Some(Opcode { code: 0xea, instr: Instruction::NOP, mode: AddressingMode::Impl, cycles: 2, cross_cycle: false }),
            0xec => Some(Opcode { code: 0xec, instr: Instruction::CPX, mode: AddressingMode::Abs, cycles: 4, cross_cycle: false }),
            0xed => Some(Opcode { code: 0xed, instr: Instruction::SBC, mode: AddressingMode::Abs, cycles: 4, cross_cycle: false }),
            0xee => Some(Opcode { code: 0xee, instr: Instruction::INC, mode: AddressingMode::Abs, cycles: 6, cross_cycle: false }),
            0xf0 => Some(Opcode { code: 0xf0, instr: Instruction::BEQ, mode: AddressingMode::Rel, cycles: 2, cross_cycle: true }),
            0xf1 => Some(Opcode { code: 0xf1, instr: Instruction::SBC, mode: AddressingMode::IndY, cycles: 5, cross_cycle: true }),
            0xf5 => Some(Opcode { code: 0xf5, instr: Instruction::SBC, mode: AddressingMode::ZpgX, cycles: 4, cross_cycle: false }),
            0xf6 => Some(Opcode { code: 0xf6, instr: Instruction::INC, mode: AddressingMode::ZpgX, cycles: 6, cross_cycle: false }),
            0xf8 => Some(Opcode { code: 0xf8, instr: Instruction::SED, mode: AddressingMode::Impl, cycles: 2, cross_cycle: false }),
            0xf9 => Some(Opcode { code: 0xf9, instr: Instruction::SBC, mode: AddressingMode::AbsY, cycles: 4, cross_cycle: true }),
            0xfd => Some(Opcode { code: 0xfd, instr: Instruction::SBC, mode: AddressingMode::AbsX, cycles: 4, cross_cycle: true }),
            0xfe => Some(Opcode { code: 0xfe, instr: Instruction::INC, mode: AddressingMode::AbsX, cycles: 7, cross_cycle: false }),
            _ => None,
        }
    }
}

} // verus!
