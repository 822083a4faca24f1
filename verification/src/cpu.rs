//! The 6502-family CPU: fetch-decode-execute interpreter with exact cycle
//! accounting, driving the PPU three dots per CPU cycle and servicing the
//! vblank NMI between instructions.
use vstd::prelude::*;

use crate::bus::{
    Bus, BusV, spec_bus_read, spec_bus_read16, spec_bus_read16_no_page_crossing, spec_bus_wf,
    spec_bus_write,
};
use crate::instructions::{
    AddressingMode, Instruction, Opcode, spec_is_branch_instruction, spec_opcode,
};
use crate::status::{
    FLAG_B, FLAG_C, FLAG_D, FLAG_I, FLAG_N, FLAG_U, FLAG_V, FLAG_Z, StatusFlags, flag_set,
    with_flag, with_zn,
};

verus! {

pub const NMI_ADDRESS: u16 = 0xfffa;
pub const RESET_ADDRESS: u16 = 0xfffc;
pub const IRQ_ADDRESS: u16 = 0xfffe;

/// An opcode byte outside the instruction table: the CPU halts and reports
/// where it was and what it read.
#[derive(Debug, Clone, Copy, PartialEq, Eq, Structural)]
pub struct DecodeError {
    pub pc: u16,
    pub opcode: u8,
}

/// Abstract CPU state. `nmis` counts NMIs taken.
pub ghost struct CpuV {
    pub bus: BusV,
    pub a: u8,
    pub x: u8,
    pub y: u8,
    pub p: u8,
    pub s: u8,
    pub pc: u16,
    pub operand: u16,
    pub cycles: u64,
    pub nmis: nat,
}

/// State after one byte is pushed: it lands at 0x0100 + S in RAM and S
/// decrements, wrapping within the page.
pub open spec fn spec_push_u8(c: CpuV, data: u8) -> CpuV {
    CpuV {
        bus: BusV { ram: c.bus.ram.update(0x100 + c.s as int, data), ..c.bus },
        s: c.s.wrapping_sub(1),
        ..c
    }
}

/// State after a 16-bit push: high byte first, then low.
pub open spec fn spec_push_u16(c: CpuV, data: u16) -> CpuV {
    spec_push_u8(spec_push_u8(c, (data / 256) as u8), (data % 256) as u8)
}

/// Value and state of one byte popped: S increments (wrapping within the
/// page) and the byte at 0x0100 + S is read.
pub open spec fn spec_pop_u8(c: CpuV) -> (u8, CpuV) {
    let s2 = c.s.wrapping_add(1);
    (c.bus.ram[0x100 + s2 as int], CpuV { s: s2, ..c })
}

/// Value and state of a 16-bit pop: low byte first, then high.
pub open spec fn spec_pop_u16(c: CpuV) -> (u16, CpuV) {
    let lo = spec_pop_u8(c);
    let hi = spec_pop_u8(lo.1);
    ((hi.0 as u16 * 256 + lo.0 as u16) as u16, hi.1)
}

/// A relative-branch offset byte sign-extended to 16 bits.
pub open spec fn spec_sign_extend(b: u8) -> u16 {
    if b < 0x80 {
        b as u16
    } else {
        (b as u16 + 0xff00) as u16
    }
}

/// State after a conditional branch: when taken, the (sign-extended)
/// operand is added to PC modulo 2^16, for one extra cycle, plus a second
/// one when the target lies in a different page than the instruction end.
pub open spec fn spec_branch(c: CpuV, condition: bool) -> CpuV {
    if condition {
        let pc2 = c.pc.wrapping_add(c.operand);
        CpuV {
            pc: pc2,
            cycles: (c.cycles + (if c.pc / 256 == pc2 / 256 {
                1int
            } else {
                2int
            })) as u64,
            ..c
        }
    } else {
        c
    }
}

/// Operand resolution for one addressing mode: the effective operand, the
/// PC advance past the operand bytes, the chained bus reads, and the
/// page-cross penalty cycle where the opcode carries one.
pub open spec fn spec_handle_addressing(c: CpuV, am: AddressingMode, cross_cycle: bool) -> CpuV {
    match am {
        AddressingMode::Abs => {
            let rd = spec_bus_read16(c.bus, c.pc);
            CpuV { bus: rd.1, operand: rd.0, pc: c.pc.wrapping_add(2), ..c }
        },
        AddressingMode::AbsX => {
            let rd = spec_bus_read16(c.bus, c.pc);
            let penalty: int = if cross_cycle && (rd.0 % 256) + c.x > 255 {
                1
            } else {
                0
            };
            CpuV {
                bus: rd.1,
                operand: rd.0.wrapping_add(c.x as u16),
                pc: c.pc.wrapping_add(2),
                cycles: (c.cycles + penalty) as u64,
                ..c
            }
        },
        AddressingMode::AbsY => {
            let rd = spec_bus_read16(c.bus, c.pc);
            let penalty: int = if cross_cycle && (rd.0 % 256) + c.y > 255 {
                1
            } else {
                0
            };
            CpuV {
                bus: rd.1,
                operand: rd.0.wrapping_add(c.y as u16),
                pc: c.pc.wrapping_add(2),
                cycles: (c.cycles + penalty) as u64,
                ..c
            }
        },
        AddressingMode::Imm => CpuV { operand: c.pc, pc: c.pc.wrapping_add(1), ..c },
        AddressingMode::Impl => c,
        AddressingMode::Acc => c,
        AddressingMode::Ind => {
            let rd = spec_bus_read16(c.bus, c.pc);
            let rt = spec_bus_read16_no_page_crossing(rd.1, rd.0);
            CpuV { bus: rt.1, operand: rt.0, pc: c.pc.wrapping_add(2), ..c }
        },
        AddressingMode::XInd => {
            let rd = spec_bus_read(c.bus, c.pc);
            let rt = spec_bus_read16_no_page_crossing(rd.1, rd.0.wrapping_add(c.x) as u16);
            CpuV { bus: rt.1, operand: rt.0, pc: c.pc.wrapping_add(1), ..c }
        },
        AddressingMode::IndY => {
            let rd = spec_bus_read(c.bus, c.pc);
            let rt = spec_bus_read16_no_page_crossing(rd.1, rd.0 as u16);
            let penalty: int = if cross_cycle && (rt.0 % 256) + c.y > 255 {
                1
            } else {
                0
            };
            CpuV {
                bus: rt.1,
                operand: rt.0.wrapping_add(c.y as u16),
                pc: c.pc.wrapping_add(1),
                cycles: (c.cycles + penalty) as u64,
                ..c
            }
        },
        AddressingMode::Rel => {
            let rd = spec_bus_read(c.bus, c.pc);
            CpuV {
                bus: rd.1,
                operand: spec_sign_extend(rd.0),
                pc: c.pc.wrapping_add(1),
                ..c
            }
        },
        AddressingMode::Zpg => {
            let rd = spec_bus_read(c.bus, c.pc);
            CpuV { bus: rd.1, operand: rd.0 as u16, pc: c.pc.wrapping_add(1), ..c }
        },
        AddressingMode::ZpgX => {
            let rd = spec_bus_read(c.bus, c.pc);
            CpuV {
                bus: rd.1,
                operand: rd.0.wrapping_add(c.x) as u16,
                pc: c.pc.wrapping_add(1),
                ..c
            }
        },
        AddressingMode::ZpgY => {
            let rd = spec_bus_read(c.bus, c.pc);
            CpuV {
                bus: rd.1,
                operand: rd.0.wrapping_add(c.y) as u16,
                pc: c.pc.wrapping_add(1),
                ..c
            }
        },
    }
}

/// The operand fetch advances PC by exactly the addressing mode's byte
/// width less the opcode byte already consumed, whatever the mode reads.
pub proof fn lemma_operand_fetch_width(c: CpuV, am: AddressingMode, cross_cycle: bool)
    ensures
        spec_handle_addressing(c, am, cross_cycle).pc == c.pc.wrapping_add(
            (am.spec_size() - 1) as u16,
        ),
{
}

/// What an OAM-DMA transfer leaves of the bus, seen from the CPU: the PPU
/// ran 1536 dots and OAM changed; RAM, the cartridge and the PPU control
/// registers did not.
pub open spec fn spec_dma_bus_effect(b0: BusV, b1: BusV) -> bool {
    &&& b1.ppu.dots == b0.ppu.dots + 1536
    &&& b1.dmas == b0.dmas + 1
    &&& b1.ram == b0.ram
    &&& b1.ppu.ctrl == b0.ppu.ctrl
    &&& b1.ppu.mask == b0.ppu.mask
    &&& b1.ppu.bus == b0.ppu.bus
}

/// Bus reads never move the PPU dot clock, never perform DMA and never
/// detach the cartridge.
pub proof fn lemma_bus_read_preserves(b: BusV, addr: u16)
    ensures
        spec_bus_read(b, addr).1.ppu.dots == b.ppu.dots,
        spec_bus_read(b, addr).1.dmas == b.dmas,
        spec_bus_read(b, addr).1.ppu.bus.cart == b.ppu.bus.cart,
{
}

/// The same for 16-bit reads.
pub proof fn lemma_bus_read16_preserves(b: BusV, addr: u16)
    ensures
        spec_bus_read16(b, addr).1.ppu.dots == b.ppu.dots,
        spec_bus_read16(b, addr).1.dmas == b.dmas,
        spec_bus_read16(b, addr).1.ppu.bus.cart == b.ppu.bus.cart,
        spec_bus_read16_no_page_crossing(b, addr).1.ppu.dots == b.ppu.dots,
        spec_bus_read16_no_page_crossing(b, addr).1.dmas == b.dmas,
        spec_bus_read16_no_page_crossing(b, addr).1.ppu.bus.cart == b.ppu.bus.cart,
{
}

/// Writes outside the OAM-DMA port never move the PPU dot clock either.
#[verifier::rlimit(100)]
pub proof fn lemma_bus_write_preserves(b: BusV, addr: u16, data: u8)
    requires
        addr != 0x4014,
    ensures
        spec_bus_write(b, addr, data).ppu.dots == b.ppu.dots,
        spec_bus_write(b, addr, data).dmas == b.dmas,
        b.ppu.bus.cart is Some ==> spec_bus_write(b, addr, data).ppu.bus.cart is Some,
{
}

/// ADC: add memory and carry into A; C, V, Z, N.
pub open spec fn spec_inst_adc(c: CpuV) -> CpuV {
    let rd = spec_bus_read(c.bus, c.operand);
    let sum = c.a + rd.0 + (if flag_set(c.p, FLAG_C) {
        1int
    } else {
        0int
    });
    let sum8 = (sum % 256) as u8;
    CpuV {
        bus: rd.1,
        a: sum8,
        p: with_zn(
            with_flag(
                with_flag(c.p, FLAG_C, sum > 255),
                FLAG_V,
                ((sum8 ^ c.a) & (sum8 ^ rd.0) & 0x80) != 0,
            ),
            sum8,
        ),
        ..c
    }
}

/// SBC: subtract memory and borrow from A (ADC with memory inverted); Z, N, V, and C exactly when no borrow occurs.
pub open spec fn spec_inst_sbc(c: CpuV) -> CpuV {
    let rd = spec_bus_read(c.bus, c.operand);
    let sum = c.a + (rd.0 ^ 0xff) + (if flag_set(c.p, FLAG_C) {
        1int
    } else {
        0int
    });
    let result = (sum % 256) as u8;
    CpuV {
        bus: rd.1,
        a: result,
        p: with_flag(
            with_flag(with_zn(c.p, result), FLAG_V, ((c.a ^ rd.0) & (c.a ^ result) & 0x80) != 0),
            FLAG_C,
            sum > 255,
        ),
        ..c
    }
}

/// AND: bitwise AND of A with memory; Z, N.
pub open spec fn spec_inst_and(c: CpuV) -> CpuV {
    let rd = spec_bus_read(c.bus, c.operand);
    CpuV { bus: rd.1, a: c.a & rd.0, p: with_zn(c.p, c.a & rd.0), ..c }
}

/// EOR: bitwise EOR of A with memory; Z, N.
pub open spec fn spec_inst_eor(c: CpuV) -> CpuV {
    let rd = spec_bus_read(c.bus, c.operand);
    CpuV { bus: rd.1, a: c.a ^ rd.0, p: with_zn(c.p, c.a ^ rd.0), ..c }
}

/// ORA: bitwise ORA of A with memory; Z, N.
pub open spec fn spec_inst_ora(c: CpuV) -> CpuV {
    let rd = spec_bus_read(c.bus, c.operand);
    CpuV { bus: rd.1, a: c.a | rd.0, p: with_zn(c.p, c.a | rd.0), ..c }
}

/// LDA: load memory into A; Z, N.
pub open spec fn spec_inst_lda(c: CpuV) -> CpuV {
    let rd = spec_bus_read(c.bus, c.operand);
    CpuV { bus: rd.1, a: rd.0, p: with_zn(c.p, rd.0), ..c }
}

/// LDX: load memory into X; Z, N.
pub open spec fn spec_inst_ldx(c: CpuV) -> CpuV {
    let rd = spec_bus_read(c.bus, c.operand);
    CpuV { bus: rd.1, x: rd.0, p: with_zn(c.p, rd.0), ..c }
}

/// LDY: load memory into Y; Z, N.
pub open spec fn spec_inst_ldy(c: CpuV) -> CpuV {
    let rd = spec_bus_read(c.bus, c.operand);
    CpuV { bus: rd.1, y: rd.0, p: with_zn(c.p, rd.0), ..c }
}

/// CMP: compare A with memory; C when A is not below it, Z, N from the difference.
pub open spec fn spec_inst_cmp(c: CpuV) -> CpuV {
    let rd = spec_bus_read(c.bus, c.operand);
    CpuV {
        bus: rd.1,
        p: with_zn(with_flag(c.p, FLAG_C, c.a >= rd.0), c.a.wrapping_sub(rd.0)),
        ..c
    }
}

/// CPX: compare X with memory; C when X is not below it, Z, N from the difference.
pub open spec fn spec_inst_cpx(c: CpuV) -> CpuV {
    let rd = spec_bus_read(c.bus, c.operand);
    CpuV {
        bus: rd.1,
        p: with_zn(with_flag(c.p, FLAG_C, c.x >= rd.0), c.x.wrapping_sub(rd.0)),
        ..c
    }
}

/// CPY: compare Y with memory; C when Y is not below it, Z, N from the difference.
pub open spec fn spec_inst_cpy(c: CpuV) -> CpuV {
    let rd = spec_bus_read(c.bus, c.operand);
    CpuV {
        bus: rd.1,
        p: with_zn(with_flag(c.p, FLAG_C, c.y >= rd.0), c.y.wrapping_sub(rd.0)),
        ..c
    }
}

/// BIT: Z from A AND memory; V and N from bits 6 and 7 of memory.
pub open spec fn spec_inst_bit(c: CpuV) -> CpuV {
    let rd = spec_bus_read(c.bus, c.operand);
    CpuV {
        bus: rd.1,
        p: with_flag(
            with_flag(with_flag(c.p, FLAG_Z, (c.a & rd.0) == 0), FLAG_V, rd.0 & 0x40 != 0),
            FLAG_N,
            rd.0 & 0x80 != 0,
        ),
        ..c
    }
}

/// BCC: branch on its condition, with the taken and page-cross cycle penalties.
pub open spec fn spec_inst_bcc(c: CpuV) -> CpuV {
    spec_branch(c, !flag_set(c.p, FLAG_C))
}

/// BCS: branch on its condition, with the taken and page-cross cycle penalties.
pub open spec fn spec_inst_bcs(c: CpuV) -> CpuV {
    spec_branch(c, flag_set(c.p, FLAG_C))
}

/// BEQ: branch on its condition, with the taken and page-cross cycle penalties.
pub open spec fn spec_inst_beq(c: CpuV) -> CpuV {
    spec_branch(c, flag_set(c.p, FLAG_Z))
}

/// BMI: branch on its condition, with the taken and page-cross cycle penalties.
pub open spec fn spec_inst_bmi(c: CpuV) -> CpuV {
    spec_branch(c, flag_set(c.p, FLAG_N))
}

/// BNE: branch on its condition, with the taken and page-cross cycle penalties.
pub open spec fn spec_inst_bne(c: CpuV) -> CpuV {
    spec_branch(c, !flag_set(c.p, FLAG_Z))
}

/// BPL: branch on its condition, with the taken and page-cross cycle penalties.
pub open spec fn spec_inst_bpl(c: CpuV) -> CpuV {
    spec_branch(c, !flag_set(c.p, FLAG_N))
}

/// BVC: branch on its condition, with the taken and page-cross cycle penalties.
pub open spec fn spec_inst_bvc(c: CpuV) -> CpuV {
    spec_branch(c, !flag_set(c.p, FLAG_V))
}

/// BVS: branch on its condition, with the taken and page-cross cycle penalties.
pub open spec fn spec_inst_bvs(c: CpuV) -> CpuV {
    spec_branch(c, flag_set(c.p, FLAG_V))
}

/// CLC: clear the flag.
pub open spec fn spec_inst_clc(c: CpuV) -> CpuV {
    CpuV { p: c.p & !FLAG_C, ..c }
}

/// CLD: clear the flag.
pub open spec fn spec_inst_cld(c: CpuV) -> CpuV {
    CpuV { p: c.p & !FLAG_D, ..c }
}

/// CLI: clear the flag.
pub open spec fn spec_inst_cli(c: CpuV) -> CpuV {
    CpuV { p: c.p & !FLAG_I, ..c }
}

/// CLV: clear the flag.
pub open spec fn spec_inst_clv(c: CpuV) -> CpuV {
    CpuV { p: c.p & !FLAG_V, ..c }
}

/// SEC: set the flag.
pub open spec fn spec_inst_sec(c: CpuV) -> CpuV {
    CpuV { p: c.p | FLAG_C, ..c }
}

/// SED: set the flag.
pub open spec fn spec_inst_sed(c: CpuV) -> CpuV {
    CpuV { p: c.p | FLAG_D, ..c }
}

/// SEI: set the flag.
pub open spec fn spec_inst_sei(c: CpuV) -> CpuV {
    CpuV { p: c.p | FLAG_I, ..c }
}

/// DEX: step X by one, wrapping; Z, N.
pub open spec fn spec_inst_dex(c: CpuV) -> CpuV {
    CpuV { x: c.x.wrapping_sub(1), p: with_zn(c.p, c.x.wrapping_sub(1)), ..c }
}

/// DEY: step Y by one, wrapping; Z, N.
pub open spec fn spec_inst_dey(c: CpuV) -> CpuV {
    CpuV { y: c.y.wrapping_sub(1), p: with_zn(c.p, c.y.wrapping_sub(1)), ..c }
}

/// INX: step X by one, wrapping; Z, N.
pub open spec fn spec_inst_inx(c: CpuV) -> CpuV {
    CpuV { x: c.x.wrapping_add(1), p: with_zn(c.p, c.x.wrapping_add(1)), ..c }
}

/// INY: step Y by one, wrapping; Z, N.
pub open spec fn spec_inst_iny(c: CpuV) -> CpuV {
    CpuV { y: c.y.wrapping_add(1), p: with_zn(c.p, c.y.wrapping_add(1)), ..c }
}

/// TAX: copy A into X; Z, N.
pub open spec fn spec_inst_tax(c: CpuV) -> CpuV {
    CpuV { x: c.a, p: with_zn(c.p, c.a), ..c }
}

/// TAY: copy A into Y; Z, N.
pub open spec fn spec_inst_tay(c: CpuV) -> CpuV {
    CpuV { y: c.a, p: with_zn(c.p, c.a), ..c }
}

/// TSX: copy S into X; Z, N.
pub open spec fn spec_inst_tsx(c: CpuV) -> CpuV {
    CpuV { x: c.s, p: with_zn(c.p, c.s), ..c }
}

/// TXA: copy X into A; Z, N.
pub open spec fn spec_inst_txa(c: CpuV) -> CpuV {
    CpuV { a: c.x, p: with_zn(c.p, c.x), ..c }
}

/// TXS: copy X into S (no flags).
pub open spec fn spec_inst_txs(c: CpuV) -> CpuV {
    CpuV { s: c.x, ..c }
}

/// TYA: copy Y into A; Z, N.
pub open spec fn spec_inst_tya(c: CpuV) -> CpuV {
    CpuV { a: c.y, p: with_zn(c.p, c.y), ..c }
}

/// ASL (accumulator): shift left; C takes bit 7.
pub open spec fn spec_inst_asl_accumulator(c: CpuV) -> CpuV {
    let result = c.a.wrapping_mul(2);
    CpuV { a: result, p: with_flag(with_zn(c.p, result), FLAG_C, c.a & 0x80 != 0), ..c }
}

/// LSR (accumulator): shift right; C takes bit 0.
pub open spec fn spec_inst_lsr_accumulator(c: CpuV) -> CpuV {
    let result = c.a / 2;
    CpuV { a: result, p: with_flag(with_zn(c.p, result), FLAG_C, c.a & 1 != 0), ..c }
}

/// ROL (accumulator): rotate left through carry.
pub open spec fn spec_inst_rol_accumulator(c: CpuV) -> CpuV {
    let result = (c.a.wrapping_mul(2) + (if flag_set(c.p, FLAG_C) {
        1int
    } else {
        0int
    })) as u8;
    CpuV { a: result, p: with_flag(with_zn(c.p, result), FLAG_C, c.a & 0x80 != 0), ..c }
}

/// ROR (accumulator): rotate right through carry.
pub open spec fn spec_inst_ror_accumulator(c: CpuV) -> CpuV {
    let result = (c.a / 2 + (if flag_set(c.p, FLAG_C) {
        128int
    } else {
        0int
    })) as u8;
    CpuV { a: result, p: with_flag(with_zn(c.p, result), FLAG_C, c.a & 1 != 0), ..c }
}

/// ASL (memory): shift the operand byte left; C takes bit 7.
pub open spec fn spec_inst_asl_memory(c: CpuV) -> CpuV {
    let rd = spec_bus_read(c.bus, c.operand);
    let result = rd.0.wrapping_mul(2);
    CpuV { bus: spec_bus_write(rd.1, c.operand, result), p: with_flag(with_zn(c.p, rd.0.wrapping_mul(2)), FLAG_C, rd.0 & 0x80 != 0), ..c }
}

/// LSR (memory): shift the operand byte right; C takes bit 0.
pub open spec fn spec_inst_lsr_memory(c: CpuV) -> CpuV {
    let rd = spec_bus_read(c.bus, c.operand);
    let result = rd.0 / 2;
    CpuV { bus: spec_bus_write(rd.1, c.operand, result), p: with_flag(with_zn(c.p, rd.0 / 2), FLAG_C, rd.0 & 1 != 0), ..c }
}

/// ROL (memory): rotate the operand byte left through carry.
pub open spec fn spec_inst_rol_memory(c: CpuV) -> CpuV {
    let rd = spec_bus_read(c.bus, c.operand);
    let result = (rd.0.wrapping_mul(2) + (if flag_set(c.p, FLAG_C) {
        1int
    } else {
        0int
    })) as u8;
    CpuV { bus: spec_bus_write(rd.1, c.operand, result), p: with_flag(
        with_zn(
            c.p,
            (rd.0.wrapping_mul(2) + (if flag_set(c.p, FLAG_C) {
                1int
            } else {
                0int
            })) as u8,
        ),
        FLAG_C,
        rd.0 & 0x80 != 0,
    ), ..c }
}

/// ROR (memory): rotate the operand byte right through carry.
pub open spec fn spec_inst_ror_memory(c: CpuV) -> CpuV {
    let rd = spec_bus_read(c.bus, c.operand);
    let result = (rd.0 / 2 + (if flag_set(c.p, FLAG_C) {
        128int
    } else {
        0int
    })) as u8;
    CpuV { bus: spec_bus_write(rd.1, c.operand, result), p: with_flag(
        with_zn(
            c.p,
            (rd.0 / 2 + (if flag_set(c.p, FLAG_C) {
                128int
            } else {
                0int
            })) as u8,
        ),
        FLAG_C,
        rd.0 & 1 != 0,
    ), ..c }
}

/// DEC: decrement the operand byte in place; Z, N.
pub open spec fn spec_inst_dec(c: CpuV) -> CpuV {
    let rd = spec_bus_read(c.bus, c.operand);
    let result = rd.0.wrapping_sub(1);
    CpuV { bus: spec_bus_write(rd.1, c.operand, result), p: with_zn(c.p, rd.0.wrapping_sub(1)), ..c }
}

/// INC: increment the operand byte in place; Z, N.
pub open spec fn spec_inst_inc(c: CpuV) -> CpuV {
    let rd = spec_bus_read(c.bus, c.operand);
    let result = rd.0.wrapping_add(1);
    CpuV { bus: spec_bus_write(rd.1, c.operand, result), p: with_zn(c.p, rd.0.wrapping_add(1)), ..c }
}

/// STA: store A to the operand address (a store to the OAM-DMA port runs the whole transfer).
pub open spec fn spec_inst_sta(c: CpuV) -> CpuV {
    CpuV { bus: spec_bus_write(c.bus, c.operand, c.a), ..c }
}

/// STX: store X to the operand address (a store to the OAM-DMA port runs the whole transfer).
pub open spec fn spec_inst_stx(c: CpuV) -> CpuV {
    CpuV { bus: spec_bus_write(c.bus, c.operand, c.x), ..c }
}

/// STY: store Y to the operand address (a store to the OAM-DMA port runs the whole transfer).
pub open spec fn spec_inst_sty(c: CpuV) -> CpuV {
    CpuV { bus: spec_bus_write(c.bus, c.operand, c.y), ..c }
}

/// JMP: jump to the operand address.
pub open spec fn spec_inst_jmp(c: CpuV) -> CpuV {
    CpuV { pc: c.operand, ..c }
}

/// JSR: push the address of the last operand byte, then jump.
pub open spec fn spec_inst_jsr(c: CpuV) -> CpuV {
    CpuV { pc: c.operand, ..spec_push_u16(c, c.pc.wrapping_sub(1)) }
}

/// RTS: pull the return address and resume one byte past it.
pub open spec fn spec_inst_rts(c: CpuV) -> CpuV {
    let po = spec_pop_u16(c);
    CpuV { pc: po.0.wrapping_add(1), ..po.1 }
}

/// BRK: push PC and the status with B and U forced, set I, and vector through 0xFFFE.
pub open spec fn spec_inst_brk(c: CpuV) -> CpuV {
    let c1 = spec_push_u16(c, c.pc);
    let c2 = spec_push_u8(c1, c.p | FLAG_B | FLAG_U);
    let rv = spec_bus_read16(c2.bus, 0xfffe);
    CpuV { bus: rv.1, p: c.p | FLAG_I, pc: rv.0, ..c2 }
}

/// RTI: pull the status (B cleared, U forced), then pull PC.
pub open spec fn spec_inst_rti(c: CpuV) -> CpuV {
    let po = spec_pop_u8(c);
    let pw = spec_pop_u16(po.1);
    CpuV { p: (po.0 & !FLAG_B) | FLAG_U, pc: pw.0, ..pw.1 }
}

/// PHA: push A.
pub open spec fn spec_inst_pha(c: CpuV) -> CpuV {
    spec_push_u8(c, c.a)
}

/// PHP: push the status with B and U forced on.
pub open spec fn spec_inst_php(c: CpuV) -> CpuV {
    spec_push_u8(c, c.p | FLAG_B | FLAG_U)
}

/// PLA: pull A; Z, N.
pub open spec fn spec_inst_pla(c: CpuV) -> CpuV {
    let po = spec_pop_u8(c);
    CpuV { a: po.0, p: with_zn(c.p, po.0), ..po.1 }
}

/// PLP: pull the status; U forced on, B cleared.
pub open spec fn spec_inst_plp(c: CpuV) -> CpuV {
    let po = spec_pop_u8(c);
    CpuV { p: (po.0 | FLAG_U) & !FLAG_B, ..po.1 }
}

/// The state transform of one dispatched instruction, after operand
/// resolution. The OAM-DMA port reads as 0 and drops writes here; the
/// stall cycles and PPU-side effects of a DMA store are accounted
/// separately by the executor's contract.
pub open spec fn spec_instruction_effect(c: CpuV, instr: Instruction, mode: AddressingMode) -> CpuV {
    match instr {
        Instruction::ADC => spec_inst_adc(c),
        Instruction::AND => spec_inst_and(c),
        Instruction::ASL => if mode == AddressingMode::Acc {
            spec_inst_asl_accumulator(c)
        } else {
            spec_inst_asl_memory(c)
        },
        Instruction::BCC => spec_inst_bcc(c),
        Instruction::BCS => spec_inst_bcs(c),
        Instruction::BEQ => spec_inst_beq(c),
        Instruction::BIT => spec_inst_bit(c),
        Instruction::BMI => spec_inst_bmi(c),
        Instruction::BNE => spec_inst_bne(c),
        Instruction::BPL => spec_inst_bpl(c),
        Instruction::BRK => spec_inst_brk(c),
        Instruction::BVC => spec_inst_bvc(c),
        Instruction::BVS => spec_inst_bvs(c),
        Instruction::CLC => spec_inst_clc(c),
        Instruction::CLD => spec_inst_cld(c),
        Instruction::CLI => spec_inst_cli(c),
        Instruction::CLV => spec_inst_clv(c),
        Instruction::CMP => spec_inst_cmp(c),
        Instruction::CPX => spec_inst_cpx(c),
        Instruction::CPY => spec_inst_cpy(c),
        Instruction::DEC => spec_inst_dec(c),
        Instruction::DEX => spec_inst_dex(c),
        Instruction::DEY => spec_inst_dey(c),
        Instruction::EOR => spec_inst_eor(c),
        Instruction::INC => spec_inst_inc(c),
        Instruction::INX => spec_inst_inx(c),
        Instruction::INY => spec_inst_iny(c),
        Instruction::JMP => spec_inst_jmp(c),
        Instruction::JSR => spec_inst_jsr(c),
        Instruction::LDA => spec_inst_lda(c),
        Instruction::LDX => spec_inst_ldx(c),
        Instruction::LDY => spec_inst_ldy(c),
        Instruction::LSR => if mode == AddressingMode::Acc {
            spec_inst_lsr_accumulator(c)
        } else {
            spec_inst_lsr_memory(c)
        },
        Instruction::NOP => c,
        Instruction::ORA => spec_inst_ora(c),
        Instruction::PHA => spec_inst_pha(c),
        Instruction::PHP => spec_inst_php(c),
        Instruction::PLA => spec_inst_pla(c),
        Instruction::PLP => spec_inst_plp(c),
        Instruction::ROL => if mode == AddressingMode::Acc {
            spec_inst_rol_accumulator(c)
        } else {
            spec_inst_rol_memory(c)
        },
        Instruction::ROR => if mode == AddressingMode::Acc {
            spec_inst_ror_accumulator(c)
        } else {
            spec_inst_ror_memory(c)
        },
        Instruction::RTI => spec_inst_rti(c),
        Instruction::RTS => spec_inst_rts(c),
        Instruction::SBC => spec_inst_sbc(c),
        Instruction::SEC => spec_inst_sec(c),
        Instruction::SED => spec_inst_sed(c),
        Instruction::SEI => spec_inst_sei(c),
        Instruction::STA => spec_inst_sta(c),
        Instruction::STX => spec_inst_stx(c),
        Instruction::STY => spec_inst_sty(c),
        Instruction::TAX => spec_inst_tax(c),
        Instruction::TAY => spec_inst_tay(c),
        Instruction::TSX => spec_inst_tsx(c),
        Instruction::TXA => spec_inst_txa(c),
        Instruction::TXS => spec_inst_txs(c),
        Instruction::TYA => spec_inst_tya(c),
    }
}

/// The given mnemonic rewrites PC outright rather than stepping it.
pub open spec fn spec_is_jump_instruction(instr: Instruction) -> bool {
    match instr {
        Instruction::JMP => true,
        Instruction::JSR => true,
        Instruction::RTS => true,
        Instruction::RTI => true,
        Instruction::BRK => true,
        _ => false,
    }
}

/// The flag condition a conditional branch tests, false for every other
/// mnemonic.
pub open spec fn spec_branch_condition(instr: Instruction, p: u8) -> bool {
    match instr {
        Instruction::BCC => !flag_set(p, FLAG_C),
        Instruction::BCS => flag_set(p, FLAG_C),
        Instruction::BEQ => flag_set(p, FLAG_Z),
        Instruction::BMI => flag_set(p, FLAG_N),
        Instruction::BNE => !flag_set(p, FLAG_Z),
        Instruction::BPL => !flag_set(p, FLAG_N),
        Instruction::BVC => !flag_set(p, FLAG_V),
        Instruction::BVS => flag_set(p, FLAG_V),
        _ => false,
    }
}

/// Outside of jumps and taken branches, one executed instruction advances
/// PC by exactly its addressing mode's byte width.
#[verifier::rlimit(100)]
pub proof fn lemma_pc_advance_by_width(c: CpuV)
    requires
        spec_opcode(spec_bus_read(c.bus, c.pc).0) is Some,
        !spec_is_jump_instruction(spec_opcode(spec_bus_read(c.bus, c.pc).0)->Some_0.instr),
        !spec_branch_condition(spec_opcode(spec_bus_read(c.bus, c.pc).0)->Some_0.instr, c.p),
    ensures
        spec_execute_instruction(c).pc == c.pc.wrapping_add(
            spec_opcode(spec_bus_read(c.bus, c.pc).0)->Some_0.mode.spec_size() as u16,
        ),
{
    reveal(spec_execute_instruction);
    let rd = spec_bus_read(c.bus, c.pc);
    let op = spec_opcode(rd.0)->Some_0;
    let c1 = (CpuV { bus: rd.1, pc: c.pc.wrapping_add(1), ..c });
    lemma_operand_fetch_width(c1, op.mode, op.cross_cycle);
    let c2 = spec_handle_addressing(c1, op.mode, op.cross_cycle);
    assert(c2.p == c.p);
    let c3 = spec_instruction_effect(c2, op.instr, op.mode);
    assert(c3.pc == c2.pc);
    let sz = op.mode.spec_size();
    assert(sz == 1 || sz == 2 || sz == 3);
    let pc0 = c.pc;
    assert(pc0.wrapping_add(1).wrapping_add(0) == pc0.wrapping_add(1)) by (bit_vector);
    assert(pc0.wrapping_add(1).wrapping_add(1) == pc0.wrapping_add(2)) by (bit_vector);
    assert(pc0.wrapping_add(1).wrapping_add(2) == pc0.wrapping_add(3)) by (bit_vector);
}

/// The effect of taking the non-maskable interrupt: PC pushed high byte
/// first, then the status with I forced in the stacked copy; I set; PC
/// loaded from the 0xFFFA vector; 7 CPU cycles booked.
#[verifier::opaque]
pub open spec fn spec_nmi_effect(c: CpuV) -> CpuV {
    let c1 = spec_push_u16(c, c.pc);
    let c2 = spec_push_u8(c1, (c.p | FLAG_I) as u8);
    let rv = spec_bus_read16(c2.bus, 0xfffa);
    CpuV {
        bus: rv.1,
        p: (c.p | FLAG_I) as u8,
        pc: rv.0,
        cycles: (c.cycles + 7) as u64,
        nmis: c.nmis + 1,
        ..c2
    }
}

/// `n` NMI services in a row.
pub open spec fn spec_nmi_iter(c: CpuV, n: nat) -> CpuV
    decreases n,
{
    if n == 0 {
        c
    } else {
        spec_nmi_effect(spec_nmi_iter(c, (n - 1) as nat))
    }
}

/// An NMI service chain never touches the cartridge and counts each
/// service.
proof fn lemma_nmi_iter_cart(c: CpuV, n: nat)
    ensures
        spec_nmi_iter(c, n).bus.ppu.bus.cart == c.bus.ppu.bus.cart,
        spec_nmi_iter(c, n).nmis == c.nmis + n,
    decreases n,
{
    reveal(spec_nmi_effect);
    if n > 0 {
        lemma_nmi_iter_cart(c, (n - 1) as nat);
    }
}

/// The CPU-core projection of an NMI service chain depends only on the
/// registers, the RAM and the cartridge: two states agreeing there give
/// agreeing chains, whatever their PPU sides hold.
proof fn lemma_nmi_iter_congruence(a: CpuV, b: CpuV, n: nat)
    requires
        a.a == b.a,
        a.x == b.x,
        a.y == b.y,
        a.p == b.p,
        a.s == b.s,
        a.pc == b.pc,
        a.operand == b.operand,
        a.cycles == b.cycles,
        a.bus.ram == b.bus.ram,
        a.bus.ppu.bus.cart == b.bus.ppu.bus.cart,
    ensures
        ({
            let fa = spec_nmi_iter(a, n);
            let fb = spec_nmi_iter(b, n);
            &&& fa.a == fb.a
            &&& fa.x == fb.x
            &&& fa.y == fb.y
            &&& fa.p == fb.p
            &&& fa.s == fb.s
            &&& fa.pc == fb.pc
            &&& fa.operand == fb.operand
            &&& fa.cycles == fb.cycles
            &&& fa.bus.ram == fb.bus.ram
            &&& fa.bus.ppu.bus.cart == a.bus.ppu.bus.cart
            &&& fb.bus.ppu.bus.cart == b.bus.ppu.bus.cart
        }),
    decreases n,
{
    reveal(spec_nmi_effect);
    if n > 0 {
        lemma_nmi_iter_congruence(a, b, (n - 1) as nat);
    }
}

pub struct Olc6502 {
    pub bus: Bus,
    a: u8,
    x: u8,
    y: u8,
    p: StatusFlags,
    s: u8,
    pub pc: u16,
    operand: u16,
    cycles: u64,
    nmis: Ghost<nat>,
}

impl View for Olc6502 {
    type V = CpuV;

    closed spec fn view(&self) -> CpuV {
        CpuV {
            bus: self.bus@,
            a: self.a,
            x: self.x,
            y: self.y,
            p: self.p.bits,
            s: self.s,
            pc: self.pc,
            operand: self.operand,
            cycles: self.cycles,
            nmis: self.nmis@,
        }
    }
}

impl Olc6502 {
    pub open spec fn wf(self) -> bool {
        spec_bus_wf(self@.bus)
    }

    /// A cartridge has been attached to the bus.
    pub open spec fn loaded(self) -> bool {
        self@.bus.ppu.bus.cart is Some
    }

    /// Power-on state: I and U set, S at 0xFD after the three simulated
    /// dummy pushes, and 7 cycles on the counter for the reset sequence.
    pub fn new(bus: Bus) -> (r: Self)
        ensures
            r@.bus == bus@,
            r@.a == 0,
            r@.x == 0,
            r@.y == 0,
            r@.p == (FLAG_I | FLAG_U),
            r@.s == 0xfd,
            r@.pc == 0,
            r@.operand == 0,
            r@.cycles == 7,
            r@.nmis == 0,
    {
        Olc6502 {
            bus,
            a: 0,
            x: 0,
            y: 0,
            p: StatusFlags::from_bits(FLAG_I | FLAG_U),
            s: 0xfd,
            pc: 0,
            operand: 0,
            cycles: 7,
            nmis: Ghost(0),
        }
    }

    pub fn get_a(&self) -> (r: u8)
        ensures
            r == self@.a,
    {
        self.a
    }

    pub fn get_x(&self) -> (r: u8)
        ensures
            r == self@.x,
    {
        self.x
    }

    pub fn get_y(&self) -> (r: u8)
        ensures
            r == self@.y,
    {
        self.y
    }

    pub fn get_p(&self) -> (r: u8)
        ensures
            r == self@.p,
    {
        self.p.get_bits()
    }

    pub fn get_s(&self) -> (r: u8)
        ensures
            r == self@.s,
    {
        self.s
    }

    pub fn get_cycles(&self) -> (r: u64)
        ensures
            r == self@.cycles,
    {
        self.cycles
    }

    /// A bus write that charges any stall cycles the bus reports (the
    /// OAM-DMA port) to the cycle counter.
    fn bus_write_u8(&mut self, addr: u16, data: u8)
        requires
            old(self).wf(),
            old(self).loaded(),
            old(self)@.cycles + 1000 <= u64::MAX,
        ensures
            final(self).wf(),
            final(self).loaded(),
            addr != 0x4014 ==> final(self)@ == (CpuV {
                bus: spec_bus_write(old(self)@.bus, addr, data),
                ..old(self)@
            }),
            addr == 0x4014 ==> final(self)@ == (CpuV {
                bus: final(self)@.bus,
                cycles: (old(self)@.cycles + 513) as u64,
                ..old(self)@
            }) && spec_dma_bus_effect(old(self)@.bus, final(self)@.bus),
    {
        let extra_cycles: usize = self.bus.write_u8(addr, data);
        self.cycles = self.cycles + extra_cycles as u64;
    }

    /// Warm reset: load PC from the reset vector, clear A/X/Y, drop S by
    /// three to mimic the dummy pushes, and set I. The cycle counter is
    /// untouched (it already carries the 7 power-on cycles).
    pub fn reset(&mut self)
        requires
            old(self).wf(),
            old(self).loaded(),
        ensures
            final(self).wf(),
            final(self).loaded(),
            ({
                let c = old(self)@;
                let rv = spec_bus_read16(c.bus, 0xfffc);
                final(self)@ == (CpuV {
                    bus: rv.1,
                    pc: rv.0,
                    a: 0,
                    x: 0,
                    y: 0,
                    s: c.s.wrapping_sub(3),
                    p: (c.p | FLAG_I) as u8,
                    ..c
                })
            }),
    {
        self.pc = self.bus.read_u16(RESET_ADDRESS);
        self.a = 0;
        self.x = 0;
        self.y = 0;
        self.s = self.s.wrapping_sub(3);
        self.p.insert(FLAG_I);
    }

    /// Takes the non-maskable interrupt: pushes PC and the status with I
    /// forced in the stacked copy, sets I, loads PC from 0xFFFA, and books
    /// the 7 CPU cycles of the interrupt entry; the tick loop appends the
    /// 6 dummy PPU dots that follow the service.
    pub fn nmi(&mut self)
        requires
            old(self).wf(),
            old(self).loaded(),
            old(self)@.cycles + 1000 <= u64::MAX,
        ensures
            final(self).wf(),
            final(self).loaded(),
            final(self)@ == spec_nmi_effect(old(self)@),
            final(self)@.nmis == old(self)@.nmis + 1,
            final(self)@.cycles == old(self)@.cycles + 7,
            final(self)@.bus.ppu == old(self)@.bus.ppu,
            final(self)@.bus.dmas == old(self)@.bus.dmas,
    {
        proof {
            reveal(spec_nmi_effect);
        }
        let pc: u16 = self.pc;
        self.push_u16(pc);
        let status: u8 = self.p.get_bits() | FLAG_I;
        self.push_u8(status);
        self.p.insert(FLAG_I);
        self.pc = self.bus.read_u16(NMI_ADDRESS);
        self.cycles = self.cycles + 7;
        self.nmis = Ghost(self.nmis@ + 1);
    }

    fn push_u8(&mut self, data: u8)
        requires
            old(self).wf(),
            old(self).loaded(),
            old(self)@.cycles + 1000 <= u64::MAX,
        ensures
            final(self).wf(),
            final(self).loaded(),
            final(self)@ == spec_push_u8(old(self)@, data),
    {
        let addr: u16 = 0x0100 + self.s as u16;
        self.bus_write_u8(addr, data);
        self.s = self.s.wrapping_sub(1);
    }

    fn push_u16(&mut self, data: u16)
        requires
            old(self).wf(),
            old(self).loaded(),
            old(self)@.cycles + 1000 <= u64::MAX,
        ensures
            final(self).wf(),
            final(self).loaded(),
            final(self)@ == spec_push_u16(old(self)@, data),
    {
        self.push_u8((data / 256) as u8);
        self.push_u8((data % 256) as u8);
    }

    fn pop_u8(&mut self) -> (r: u8)
        requires
            old(self).wf(),
            old(self).loaded(),
        ensures
            final(self).wf(),
            final(self).loaded(),
            (r, final(self)@) == spec_pop_u8(old(self)@),
    {
        self.s = self.s.wrapping_add(1);
        self.bus.read_u8(0x0100 + self.s as u16)
    }

    fn pop_u16(&mut self) -> (r: u16)
        requires
            old(self).wf(),
            old(self).loaded(),
        ensures
            final(self).wf(),
            final(self).loaded(),
            (r, final(self)@) == spec_pop_u16(old(self)@),
    {
        let lo: u8 = self.pop_u8();
        let hi: u8 = self.pop_u8();
        (hi as u16) * 256 + lo as u16
    }

    fn set_zn_flags(&mut self, value: u8)
        ensures
            final(self)@ == (CpuV { p: with_zn(old(self)@.p, value), ..old(self)@ }),
    {
        self.p.set(FLAG_Z, value == 0);
        self.p.set(FLAG_N, value & 0x80 != 0);
    }

    /// Resolves the operand for the addressing mode; the PC advance equals
    /// the mode's byte width less the opcode byte already consumed.
    fn handle_addressing(&mut self, am: AddressingMode, cross_cycle: bool)
        requires
            old(self).wf(),
            old(self).loaded(),
            old(self)@.cycles + 1000 <= u64::MAX,
        ensures
            final(self).wf(),
            final(self).loaded(),
            final(self)@ == spec_handle_addressing(old(self)@, am, cross_cycle),
            final(self)@.pc == old(self)@.pc.wrapping_add((am.spec_size() - 1) as u16),
            final(self)@.bus.ppu.dots == old(self)@.bus.ppu.dots,
            final(self)@.bus.dmas == old(self)@.bus.dmas,
            final(self)@.nmis == old(self)@.nmis,
            old(self)@.cycles <= final(self)@.cycles <= old(self)@.cycles + 1,
            am == AddressingMode::Rel ==> final(self)@.cycles == old(self)@.cycles,
    {
        let ghost c0 = self@;
        match am {
            AddressingMode::Abs => {
                self.operand = self.bus.read_u16(self.pc);
                self.pc = self.pc.wrapping_add(2);
            },
            AddressingMode::AbsX => {
                let base: u16 = self.bus.read_u16(self.pc);
                self.operand = base.wrapping_add(self.x as u16);
                self.pc = self.pc.wrapping_add(2);
                if cross_cycle && (base % 256) + self.x as u16 > 255 {
                    self.cycles = self.cycles + 1;
                }
            },
            AddressingMode::AbsY => {
                let base: u16 = self.bus.read_u16(self.pc);
                self.operand = base.wrapping_add(self.y as u16);
                self.pc = self.pc.wrapping_add(2);
                if cross_cycle && (base % 256) + self.y as u16 > 255 {
                    self.cycles = self.cycles + 1;
                }
            },
            AddressingMode::Imm => {
                self.operand = self.pc;
                self.pc = self.pc.wrapping_add(1);
            },
            AddressingMode::Impl => {},
            AddressingMode::Acc => {},
            AddressingMode::Ind => {
                let address: u16 = self.bus.read_u16(self.pc);
                self.operand = self.bus.read_u16_no_page_crossing(address);
                self.pc = self.pc.wrapping_add(2);
            },
            AddressingMode::XInd => {
                let address: u8 = self.bus.read_u8(self.pc).wrapping_add(self.x);
                self.operand = self.bus.read_u16_no_page_crossing(address as u16);
                self.pc = self.pc.wrapping_add(1);
            },
            AddressingMode::IndY => {
                let address: u8 = self.bus.read_u8(self.pc);
                let base: u16 = self.bus.read_u16_no_page_crossing(address as u16);
                self.operand = base.wrapping_add(self.y as u16);
                self.pc = self.pc.wrapping_add(1);
                if cross_cycle && (base % 256) + self.y as u16 > 255 {
                    self.cycles = self.cycles + 1;
                }
            },
            AddressingMode::Rel => {
                let b: u8 = self.bus.read_u8(self.pc);
                self.operand = if b < 0x80 {
                    b as u16
                } else {
                    b as u16 + 0xff00
                };
                self.pc = self.pc.wrapping_add(1);
            },
            AddressingMode::Zpg => {
                self.operand = self.bus.read_u8(self.pc) as u16;
                self.pc = self.pc.wrapping_add(1);
            },
            AddressingMode::ZpgX => {
                self.operand = self.bus.read_u8(self.pc).wrapping_add(self.x) as u16;
                self.pc = self.pc.wrapping_add(1);
            },
            AddressingMode::ZpgY => {
                self.operand = self.bus.read_u8(self.pc).wrapping_add(self.y) as u16;
                self.pc = self.pc.wrapping_add(1);
            },
        }
        proof {
            lemma_bus_read_preserves(c0.bus, c0.pc);
            lemma_bus_read16_preserves(c0.bus, c0.pc);
            let rd16 = spec_bus_read16(c0.bus, c0.pc);
            lemma_bus_read16_preserves(rd16.1, rd16.0);
            let rd8 = spec_bus_read(c0.bus, c0.pc);
            lemma_bus_read16_preserves(rd8.1, rd8.0.wrapping_add(c0.x) as u16);
            lemma_bus_read16_preserves(rd8.1, rd8.0 as u16);
        }
    }

    /// ADC: add memory and carry into A; C, V, Z, N.
    fn inst_adc(&mut self)
        requires
            old(self).wf(),
            old(self).loaded(),
        ensures
            final(self).wf(),
            final(self).loaded(),
            final(self)@ == spec_inst_adc(old(self)@),
            final(self)@.nmis == old(self)@.nmis,
            final(self)@.bus.ppu.dots == old(self)@.bus.ppu.dots + 1536 * (final(self)@.bus.dmas
                - old(self)@.bus.dmas),
            old(self)@.bus.dmas <= final(self)@.bus.dmas <= old(self)@.bus.dmas + 1,
            old(self)@.cycles <= final(self)@.cycles <= old(self)@.cycles + 515,
    {
        let ghost c0 = self@;
        let memory: u8 = self.bus.read_u8(self.operand);
        let carry: u16 = if self.p.contains(FLAG_C) {
            1
        } else {
            0
        };
        let sum_u16: u16 = self.a as u16 + memory as u16 + carry;
        let sum_u8: u8 = (sum_u16 % 256) as u8;
        self.p.set(FLAG_C, sum_u16 > 0xff);
        self.p.set(FLAG_V, ((sum_u8 ^ self.a) & (sum_u8 ^ memory) & 0x80) != 0);
        self.set_zn_flags(sum_u8);
        self.a = sum_u8;
        proof {
            lemma_bus_read_preserves(c0.bus, c0.operand);
        }
    }

    /// SBC: subtract memory and borrow from A (ADC with memory inverted); Z, N, V, and C exactly when no borrow occurs.
    fn inst_sbc(&mut self)
        requires
            old(self).wf(),
            old(self).loaded(),
        ensures
            final(self).wf(),
            final(self).loaded(),
            final(self)@ == spec_inst_sbc(old(self)@),
            final(self)@.nmis == old(self)@.nmis,
            final(self)@.bus.ppu.dots == old(self)@.bus.ppu.dots + 1536 * (final(self)@.bus.dmas
                - old(self)@.bus.dmas),
            old(self)@.bus.dmas <= final(self)@.bus.dmas <= old(self)@.bus.dmas + 1,
            old(self)@.cycles <= final(self)@.cycles <= old(self)@.cycles + 515,
    {
        let ghost c0 = self@;
        let memory: u8 = self.bus.read_u8(self.operand);
        let carry: u16 = if self.p.contains(FLAG_C) {
            1
        } else {
            0
        };
        let sum_u16: u16 = self.a as u16 + (memory ^ 0xff) as u16 + carry;
        let result: u8 = (sum_u16 % 256) as u8;
        self.set_zn_flags(result);
        self.p.set(FLAG_V, ((self.a ^ memory) & (self.a ^ result) & 0x80) != 0);
        self.p.set(FLAG_C, sum_u16 > 0xff);
        self.a = result;
        proof {
            lemma_bus_read_preserves(c0.bus, c0.operand);
        }
    }

    /// AND: bitwise AND of A with memory; Z, N.
    fn inst_and(&mut self)
        requires
            old(self).wf(),
            old(self).loaded(),
        ensures
            final(self).wf(),
            final(self).loaded(),
            final(self)@ == spec_inst_and(old(self)@),
            final(self)@.nmis == old(self)@.nmis,
            final(self)@.bus.ppu.dots == old(self)@.bus.ppu.dots + 1536 * (final(self)@.bus.dmas
                - old(self)@.bus.dmas),
            old(self)@.bus.dmas <= final(self)@.bus.dmas <= old(self)@.bus.dmas + 1,
            old(self)@.cycles <= final(self)@.cycles <= old(self)@.cycles + 515,
    {
        let ghost c0 = self@;
        let memory: u8 = self.bus.read_u8(self.operand);
        self.a = self.a & memory;
        let a: u8 = self.a;
        self.set_zn_flags(a);
        proof {
            lemma_bus_read_preserves(c0.bus, c0.operand);
        }
    }

    /// EOR: bitwise EOR of A with memory; Z, N.
    fn inst_eor(&mut self)
        requires
            old(self).wf(),
            old(self).loaded(),
        ensures
            final(self).wf(),
            final(self).loaded(),
            final(self)@ == spec_inst_eor(old(self)@),
            final(self)@.nmis == old(self)@.nmis,
            final(self)@.bus.ppu.dots == old(self)@.bus.ppu.dots + 1536 * (final(self)@.bus.dmas
                - old(self)@.bus.dmas),
            old(self)@.bus.dmas <= final(self)@.bus.dmas <= old(self)@.bus.dmas + 1,
            old(self)@.cycles <= final(self)@.cycles <= old(self)@.cycles + 515,
    {
        let ghost c0 = self@;
        let memory: u8 = self.bus.read_u8(self.operand);
        self.a = self.a ^ memory;
        let a: u8 = self.a;
        self.set_zn_flags(a);
        proof {
            lemma_bus_read_preserves(c0.bus, c0.operand);
        }
    }

    /// ORA: bitwise ORA of A with memory; Z, N.
    fn inst_ora(&mut self)
        requires
            old(self).wf(),
            old(self).loaded(),
        ensures
            final(self).wf(),
            final(self).loaded(),
            final(self)@ == spec_inst_ora(old(self)@),
            final(self)@.nmis == old(self)@.nmis,
            final(self)@.bus.ppu.dots == old(self)@.bus.ppu.dots + 1536 * (final(self)@.bus.dmas
                - old(self)@.bus.dmas),
            old(self)@.bus.dmas <= final(self)@.bus.dmas <= old(self)@.bus.dmas + 1,
            old(self)@.cycles <= final(self)@.cycles <= old(self)@.cycles + 515,
    {
        let ghost c0 = self@;
        let memory: u8 = self.bus.read_u8(self.operand);
        self.a = self.a | memory;
        let a: u8 = self.a;
        self.set_zn_flags(a);
        proof {
            lemma_bus_read_preserves(c0.bus, c0.operand);
        }
    }

    /// LDA: load memory into A; Z, N.
    fn inst_lda(&mut self)
        requires
            old(self).wf(),
            old(self).loaded(),
        ensures
            final(self).wf(),
            final(self).loaded(),
            final(self)@ == spec_inst_lda(old(self)@),
            final(self)@.nmis == old(self)@.nmis,
            final(self)@.bus.ppu.dots == old(self)@.bus.ppu.dots + 1536 * (final(self)@.bus.dmas
                - old(self)@.bus.dmas),
            old(self)@.bus.dmas <= final(self)@.bus.dmas <= old(self)@.bus.dmas + 1,
            old(self)@.cycles <= final(self)@.cycles <= old(self)@.cycles + 515,
    {
        let ghost c0 = self@;
        let memory: u8 = self.bus.read_u8(self.operand);
        self.a = memory;
        self.set_zn_flags(memory);
        proof {
            lemma_bus_read_preserves(c0.bus, c0.operand);
        }
    }

    /// LDX: load memory into X; Z, N.
    fn inst_ldx(&mut self)
        requires
            old(self).wf(),
            old(self).loaded(),
        ensures
            final(self).wf(),
            final(self).loaded(),
            final(self)@ == spec_inst_ldx(old(self)@),
            final(self)@.nmis == old(self)@.nmis,
            final(self)@.bus.ppu.dots == old(self)@.bus.ppu.dots + 1536 * (final(self)@.bus.dmas
                - old(self)@.bus.dmas),
            old(self)@.bus.dmas <= final(self)@.bus.dmas <= old(self)@.bus.dmas + 1,
            old(self)@.cycles <= final(self)@.cycles <= old(self)@.cycles + 515,
    {
        let ghost c0 = self@;
        let memory: u8 = self.bus.read_u8(self.operand);
        self.x = memory;
        self.set_zn_flags(memory);
        proof {
            lemma_bus_read_preserves(c0.bus, c0.operand);
        }
    }

    /// LDY: load memory into Y; Z, N.
    fn inst_ldy(&mut self)
        requires
            old(self).wf(),
            old(self).loaded(),
        ensures
            final(self).wf(),
            final(self).loaded(),
            final(self)@ == spec_inst_ldy(old(self)@),
            final(self)@.nmis == old(self)@.nmis,
            final(self)@.bus.ppu.dots == old(self)@.bus.ppu.dots + 1536 * (final(self)@.bus.dmas
                - old(self)@.bus.dmas),
            old(self)@.bus.dmas <= final(self)@.bus.dmas <= old(self)@.bus.dmas + 1,
            old(self)@.cycles <= final(self)@.cycles <= old(self)@.cycles + 515,
    {
        let ghost c0 = self@;
        let memory: u8 = self.bus.read_u8(self.operand);
        self.y = memory;
        self.set_zn_flags(memory);
        proof {
            lemma_bus_read_preserves(c0.bus, c0.operand);
        }
    }

    /// CMP: compare A with memory; C when A is not below it, Z, N from the difference.
    fn inst_cmp(&mut self)
        requires
            old(self).wf(),
            old(self).loaded(),
        ensures
            final(self).wf(),
            final(self).loaded(),
            final(self)@ == spec_inst_cmp(old(self)@),
            final(self)@.nmis == old(self)@.nmis,
            final(self)@.bus.ppu.dots == old(self)@.bus.ppu.dots + 1536 * (final(self)@.bus.dmas
                - old(self)@.bus.dmas),
            old(self)@.bus.dmas <= final(self)@.bus.dmas <= old(self)@.bus.dmas + 1,
            old(self)@.cycles <= final(self)@.cycles <= old(self)@.cycles + 515,
    {
        let ghost c0 = self@;
        let memory: u8 = self.bus.read_u8(self.operand);
        let result: u8 = self.a.wrapping_sub(memory);
        self.p.set(FLAG_C, self.a >= memory);
        self.set_zn_flags(result);
        proof {
            lemma_bus_read_preserves(c0.bus, c0.operand);
        }
    }

    /// CPX: compare X with memory; C when X is not below it, Z, N from the difference.
    fn inst_cpx(&mut self)
        requires
            old(self).wf(),
            old(self).loaded(),
        ensures
            final(self).wf(),
            final(self).loaded(),
            final(self)@ == spec_inst_cpx(old(self)@),
            final(self)@.nmis == old(self)@.nmis,
            final(self)@.bus.ppu.dots == old(self)@.bus.ppu.dots + 1536 * (final(self)@.bus.dmas
                - old(self)@.bus.dmas),
            old(self)@.bus.dmas <= final(self)@.bus.dmas <= old(self)@.bus.dmas + 1,
            old(self)@.cycles <= final(self)@.cycles <= old(self)@.cycles + 515,
    {
        let ghost c0 = self@;
        let memory: u8 = self.bus.read_u8(self.operand);
        let result: u8 = self.x.wrapping_sub(memory);
        self.p.set(FLAG_C, self.x >= memory);
        self.set_zn_flags(result);
        proof {
            lemma_bus_read_preserves(c0.bus, c0.operand);
        }
    }

    /// CPY: compare Y with memory; C when Y is not below it, Z, N from the difference.
    fn inst_cpy(&mut self)
        requires
            old(self).wf(),
            old(self).loaded(),
        ensures
            final(self).wf(),
            final(self).loaded(),
            final(self)@ == spec_inst_cpy(old(self)@),
            final(self)@.nmis == old(self)@.nmis,
            final(self)@.bus.ppu.dots == old(self)@.bus.ppu.dots + 1536 * (final(self)@.bus.dmas
                - old(self)@.bus.dmas),
            old(self)@.bus.dmas <= final(self)@.bus.dmas <= old(self)@.bus.dmas + 1,
            old(self)@.cycles <= final(self)@.cycles <= old(self)@.cycles + 515,
    {
        let ghost c0 = self@;
        let memory: u8 = self.bus.read_u8(self.operand);
        let result: u8 = self.y.wrapping_sub(memory);
        self.p.set(FLAG_C, self.y >= memory);
        self.set_zn_flags(result);
        proof {
            lemma_bus_read_preserves(c0.bus, c0.operand);
        }
    }

    /// BIT: Z from A AND memory; V and N from bits 6 and 7 of memory.
    fn inst_bit(&mut self)
        requires
            old(self).wf(),
            old(self).loaded(),
        ensures
            final(self).wf(),
            final(self).loaded(),
            final(self)@ == spec_inst_bit(old(self)@),
            final(self)@.nmis == old(self)@.nmis,
            final(self)@.bus.ppu.dots == old(self)@.bus.ppu.dots + 1536 * (final(self)@.bus.dmas
                - old(self)@.bus.dmas),
            old(self)@.bus.dmas <= final(self)@.bus.dmas <= old(self)@.bus.dmas + 1,
            old(self)@.cycles <= final(self)@.cycles <= old(self)@.cycles + 515,
    {
        let ghost c0 = self@;
        let memory: u8 = self.bus.read_u8(self.operand);
        let res: u8 = self.a & memory;
        self.p.set(FLAG_Z, res == 0);
        self.p.set(FLAG_V, memory & 0x40 != 0);
        self.p.set(FLAG_N, memory & 0x80 != 0);
        proof {
            lemma_bus_read_preserves(c0.bus, c0.operand);
        }
    }

    /// BCC: branch on its condition, with the taken and page-cross cycle penalties.
    fn inst_bcc(&mut self)
        requires
            old(self).wf(),
            old(self).loaded(),
            old(self)@.cycles + 1000 <= u64::MAX,
        ensures
            final(self).wf(),
            final(self).loaded(),
            final(self)@ == spec_inst_bcc(old(self)@),
            final(self)@.nmis == old(self)@.nmis,
            final(self)@.bus.ppu.dots == old(self)@.bus.ppu.dots + 1536 * (final(self)@.bus.dmas
                - old(self)@.bus.dmas),
            old(self)@.bus.dmas <= final(self)@.bus.dmas <= old(self)@.bus.dmas + 1,
            old(self)@.cycles <= final(self)@.cycles <= old(self)@.cycles + 515,
    {
        let condition: bool = !self.p.contains(FLAG_C);
        self.branch(condition);
    }

    /// BCS: branch on its condition, with the taken and page-cross cycle penalties.
    fn inst_bcs(&mut self)
        requires
            old(self).wf(),
            old(self).loaded(),
            old(self)@.cycles + 1000 <= u64::MAX,
        ensures
            final(self).wf(),
            final(self).loaded(),
            final(self)@ == spec_inst_bcs(old(self)@),
            final(self)@.nmis == old(self)@.nmis,
            final(self)@.bus.ppu.dots == old(self)@.bus.ppu.dots + 1536 * (final(self)@.bus.dmas
                - old(self)@.bus.dmas),
            old(self)@.bus.dmas <= final(self)@.bus.dmas <= old(self)@.bus.dmas + 1,
            old(self)@.cycles <= final(self)@.cycles <= old(self)@.cycles + 515,
    {
        let condition: bool = self.p.contains(FLAG_C);
        self.branch(condition);
    }

    /// BEQ: branch on its condition, with the taken and page-cross cycle penalties.
    fn inst_beq(&mut self)
        requires
            old(self).wf(),
            old(self).loaded(),
            old(self)@.cycles + 1000 <= u64::MAX,
        ensures
            final(self).wf(),
            final(self).loaded(),
            final(self)@ == spec_inst_beq(old(self)@),
            final(self)@.nmis == old(self)@.nmis,
            final(self)@.bus.ppu.dots == old(self)@.bus.ppu.dots + 1536 * (final(self)@.bus.dmas
                - old(self)@.bus.dmas),
            old(self)@.bus.dmas <= final(self)@.bus.dmas <= old(self)@.bus.dmas + 1,
            old(self)@.cycles <= final(self)@.cycles <= old(self)@.cycles + 515,
    {
        let condition: bool = self.p.contains(FLAG_Z);
        self.branch(condition);
    }

    /// BMI: branch on its condition, with the taken and page-cross cycle penalties.
    fn inst_bmi(&mut self)
        requires
            old(self).wf(),
            old(self).loaded(),
            old(self)@.cycles + 1000 <= u64::MAX,
        ensures
            final(self).wf(),
            final(self).loaded(),
            final(self)@ == spec_inst_bmi(old(self)@),
            final(self)@.nmis == old(self)@.nmis,
            final(self)@.bus.ppu.dots == old(self)@.bus.ppu.dots + 1536 * (final(self)@.bus.dmas
                - old(self)@.bus.dmas),
            old(self)@.bus.dmas <= final(self)@.bus.dmas <= old(self)@.bus.dmas + 1,
            old(self)@.cycles <= final(self)@.cycles <= old(self)@.cycles + 515,
    {
        let condition: bool = self.p.contains(FLAG_N);
        self.branch(condition);
    }

    /// BNE: branch on its condition, with the taken and page-cross cycle penalties.
    fn inst_bne(&mut self)
        requires
            old(self).wf(),
            old(self).loaded(),
            old(self)@.cycles + 1000 <= u64::MAX,
        ensures
            final(self).wf(),
            final(self).loaded(),
            final(self)@ == spec_inst_bne(old(self)@),
            final(self)@.nmis == old(self)@.nmis,
            final(self)@.bus.ppu.dots == old(self)@.bus.ppu.dots + 1536 * (final(self)@.bus.dmas
                - old(self)@.bus.dmas),
            old(self)@.bus.dmas <= final(self)@.bus.dmas <= old(self)@.bus.dmas + 1,
            old(self)@.cycles <= final(self)@.cycles <= old(self)@.cycles + 515,
    {
        let condition: bool = !self.p.contains(FLAG_Z);
        self.branch(condition);
    }

    /// BPL: branch on its condition, with the taken and page-cross cycle penalties.
    fn inst_bpl(&mut self)
        requires
            old(self).wf(),
            old(self).loaded(),
            old(self)@.cycles + 1000 <= u64::MAX,
        ensures
            final(self).wf(),
            final(self).loaded(),
            final(self)@ == spec_inst_bpl(old(self)@),
            final(self)@.nmis == old(self)@.nmis,
            final(self)@.bus.ppu.dots == old(self)@.bus.ppu.dots + 1536 * (final(self)@.bus.dmas
                - old(self)@.bus.dmas),
            old(self)@.bus.dmas <= final(self)@.bus.dmas <= old(self)@.bus.dmas + 1,
            old(self)@.cycles <= final(self)@.cycles <= old(self)@.cycles + 515,
    {
        let condition: bool = !self.p.contains(FLAG_N);
        self.branch(condition);
    }

    /// BVC: branch on its condition, with the taken and page-cross cycle penalties.
    fn inst_bvc(&mut self)
        requires
            old(self).wf(),
            old(self).loaded(),
            old(self)@.cycles + 1000 <= u64::MAX,
        ensures
            final(self).wf(),
            final(self).loaded(),
            final(self)@ == spec_inst_bvc(old(self)@),
            final(self)@.nmis == old(self)@.nmis,
            final(self)@.bus.ppu.dots == old(self)@.bus.ppu.dots + 1536 * (final(self)@.bus.dmas
                - old(self)@.bus.dmas),
            old(self)@.bus.dmas <= final(self)@.bus.dmas <= old(self)@.bus.dmas + 1,
            old(self)@.cycles <= final(self)@.cycles <= old(self)@.cycles + 515,
    {
        let condition: bool = !self.p.contains(FLAG_V);
        self.branch(condition);
    }

    /// BVS: branch on its condition, with the taken and page-cross cycle penalties.
    fn inst_bvs(&mut self)
        requires
            old(self).wf(),
            old(self).loaded(),
            old(self)@.cycles + 1000 <= u64::MAX,
        ensures
            final(self).wf(),
            final(self).loaded(),
            final(self)@ == spec_inst_bvs(old(self)@),
            final(self)@.nmis == old(self)@.nmis,
            final(self)@.bus.ppu.dots == old(self)@.bus.ppu.dots + 1536 * (final(self)@.bus.dmas
                - old(self)@.bus.dmas),
            old(self)@.bus.dmas <= final(self)@.bus.dmas <= old(self)@.bus.dmas + 1,
            old(self)@.cycles <= final(self)@.cycles <= old(self)@.cycles + 515,
    {
        let condition: bool = self.p.contains(FLAG_V);
        self.branch(condition);
    }

    /// CLC: clear the flag.
    fn inst_clc(&mut self)
        requires
            old(self).wf(),
            old(self).loaded(),
        ensures
            final(self).wf(),
            final(self).loaded(),
            final(self)@ == spec_inst_clc(old(self)@),
            final(self)@.nmis == old(self)@.nmis,
            final(self)@.bus.ppu.dots == old(self)@.bus.ppu.dots + 1536 * (final(self)@.bus.dmas
                - old(self)@.bus.dmas),
            old(self)@.bus.dmas <= final(self)@.bus.dmas <= old(self)@.bus.dmas + 1,
            old(self)@.cycles <= final(self)@.cycles <= old(self)@.cycles + 515,
    {
        self.p.remove(FLAG_C);
    }

    /// CLD: clear the flag.
    fn inst_cld(&mut self)
        requires
            old(self).wf(),
            old(self).loaded(),
        ensures
            final(self).wf(),
            final(self).loaded(),
            final(self)@ == spec_inst_cld(old(self)@),
            final(self)@.nmis == old(self)@.nmis,
            final(self)@.bus.ppu.dots == old(self)@.bus.ppu.dots + 1536 * (final(self)@.bus.dmas
                - old(self)@.bus.dmas),
            old(self)@.bus.dmas <= final(self)@.bus.dmas <= old(self)@.bus.dmas + 1,
            old(self)@.cycles <= final(self)@.cycles <= old(self)@.cycles + 515,
    {
        self.p.remove(FLAG_D);
    }

    /// CLI: clear the flag.
    fn inst_cli(&mut self)
        requires
            old(self).wf(),
            old(self).loaded(),
        ensures
            final(self).wf(),
            final(self).loaded(),
            final(self)@ == spec_inst_cli(old(self)@),
            final(self)@.nmis == old(self)@.nmis,
            final(self)@.bus.ppu.dots == old(self)@.bus.ppu.dots + 1536 * (final(self)@.bus.dmas
                - old(self)@.bus.dmas),
            old(self)@.bus.dmas <= final(self)@.bus.dmas <= old(self)@.bus.dmas + 1,
            old(self)@.cycles <= final(self)@.cycles <= old(self)@.cycles + 515,
    {
        self.p.remove(FLAG_I);
    }

    /// CLV: clear the flag.
    fn inst_clv(&mut self)
        requires
            old(self).wf(),
            old(self).loaded(),
        ensures
            final(self).wf(),
            final(self).loaded(),
            final(self)@ == spec_inst_clv(old(self)@),
            final(self)@.nmis == old(self)@.nmis,
            final(self)@.bus.ppu.dots == old(self)@.bus.ppu.dots + 1536 * (final(self)@.bus.dmas
                - old(self)@.bus.dmas),
            old(self)@.bus.dmas <= final(self)@.bus.dmas <= old(self)@.bus.dmas + 1,
            old(self)@.cycles <= final(self)@.cycles <= old(self)@.cycles + 515,
    {
        self.p.remove(FLAG_V);
    }

    /// SEC: set the flag.
    fn inst_sec(&mut self)
        requires
            old(self).wf(),
            old(self).loaded(),
        ensures
            final(self).wf(),
            final(self).loaded(),
            final(self)@ == spec_inst_sec(old(self)@),
            final(self)@.nmis == old(self)@.nmis,
            final(self)@.bus.ppu.dots == old(self)@.bus.ppu.dots + 1536 * (final(self)@.bus.dmas
                - old(self)@.bus.dmas),
            old(self)@.bus.dmas <= final(self)@.bus.dmas <= old(self)@.bus.dmas + 1,
            old(self)@.cycles <= final(self)@.cycles <= old(self)@.cycles + 515,
    {
        self.p.insert(FLAG_C);
    }

    /// SED: set the flag.
    fn inst_sed(&mut self)
        requires
            old(self).wf(),
            old(self).loaded(),
        ensures
            final(self).wf(),
            final(self).loaded(),
            final(self)@ == spec_inst_sed(old(self)@),
            final(self)@.nmis == old(self)@.nmis,
            final(self)@.bus.ppu.dots == old(self)@.bus.ppu.dots + 1536 * (final(self)@.bus.dmas
                - old(self)@.bus.dmas),
            old(self)@.bus.dmas <= final(self)@.bus.dmas <= old(self)@.bus.dmas + 1,
            old(self)@.cycles <= final(self)@.cycles <= old(self)@.cycles + 515,
    {
        self.p.insert(FLAG_D);
    }

    /// SEI: set the flag.
    fn inst_sei(&mut self)
        requires
            old(self).wf(),
            old(self).loaded(),
        ensures
            final(self).wf(),
            final(self).loaded(),
            final(self)@ == spec_inst_sei(old(self)@),
            final(self)@.nmis == old(self)@.nmis,
            final(self)@.bus.ppu.dots == old(self)@.bus.ppu.dots + 1536 * (final(self)@.bus.dmas
                - old(self)@.bus.dmas),
            old(self)@.bus.dmas <= final(self)@.bus.dmas <= old(self)@.bus.dmas + 1,
            old(self)@.cycles <= final(self)@.cycles <= old(self)@.cycles + 515,
    {
        self.p.insert(FLAG_I);
    }

    /// DEX: step X by one, wrapping; Z, N.
    fn inst_dex(&mut self)
        requires
            old(self).wf(),
            old(self).loaded(),
        ensures
            final(self).wf(),
            final(self).loaded(),
            final(self)@ == spec_inst_dex(old(self)@),
            final(self)@.nmis == old(self)@.nmis,
            final(self)@.bus.ppu.dots == old(self)@.bus.ppu.dots + 1536 * (final(self)@.bus.dmas
                - old(self)@.bus.dmas),
            old(self)@.bus.dmas <= final(self)@.bus.dmas <= old(self)@.bus.dmas + 1,
            old(self)@.cycles <= final(self)@.cycles <= old(self)@.cycles + 515,
    {
        self.x = self.x.wrapping_sub(1);
        let v: u8 = self.x;
        self.set_zn_flags(v);
    }

    /// DEY: step Y by one, wrapping; Z, N.
    fn inst_dey(&mut self)
        requires
            old(self).wf(),
            old(self).loaded(),
        ensures
            final(self).wf(),
            final(self).loaded(),
            final(self)@ == spec_inst_dey(old(self)@),
            final(self)@.nmis == old(self)@.nmis,
            final(self)@.bus.ppu.dots == old(self)@.bus.ppu.dots + 1536 * (final(self)@.bus.dmas
                - old(self)@.bus.dmas),
            old(self)@.bus.dmas <= final(self)@.bus.dmas <= old(self)@.bus.dmas + 1,
            old(self)@.cycles <= final(self)@.cycles <= old(self)@.cycles + 515,
    {
        self.y = self.y.wrapping_sub(1);
        let v: u8 = self.y;
        self.set_zn_flags(v);
    }

    /// INX: step X by one, wrapping; Z, N.
    fn inst_inx(&mut self)
        requires
            old(self).wf(),
            old(self).loaded(),
        ensures
            final(self).wf(),
            final(self).loaded(),
            final(self)@ == spec_inst_inx(old(self)@),
            final(self)@.nmis == old(self)@.nmis,
            final(self)@.bus.ppu.dots == old(self)@.bus.ppu.dots + 1536 * (final(self)@.bus.dmas
                - old(self)@.bus.dmas),
            old(self)@.bus.dmas <= final(self)@.bus.dmas <= old(self)@.bus.dmas + 1,
            old(self)@.cycles <= final(self)@.cycles <= old(self)@.cycles + 515,
    {
        self.x = self.x.wrapping_add(1);
        let v: u8 = self.x;
        self.set_zn_flags(v);
    }

    /// INY: step Y by one, wrapping; Z, N.
    fn inst_iny(&mut self)
        requires
            old(self).wf(),
            old(self).loaded(),
        ensures
            final(self).wf(),
            final(self).loaded(),
            final(self)@ == spec_inst_iny(old(self)@),
            final(self)@.nmis == old(self)@.nmis,
            final(self)@.bus.ppu.dots == old(self)@.bus.ppu.dots + 1536 * (final(self)@.bus.dmas
                - old(self)@.bus.dmas),
            old(self)@.bus.dmas <= final(self)@.bus.dmas <= old(self)@.bus.dmas + 1,
            old(self)@.cycles <= final(self)@.cycles <= old(self)@.cycles + 515,
    {
        self.y = self.y.wrapping_add(1);
        let v: u8 = self.y;
        self.set_zn_flags(v);
    }

    /// TAX: copy A into X; Z, N.
    fn inst_tax(&mut self)
        requires
            old(self).wf(),
            old(self).loaded(),
        ensures
            final(self).wf(),
            final(self).loaded(),
            final(self)@ == spec_inst_tax(old(self)@),
            final(self)@.nmis == old(self)@.nmis,
            final(self)@.bus.ppu.dots == old(self)@.bus.ppu.dots + 1536 * (final(self)@.bus.dmas
                - old(self)@.bus.dmas),
            old(self)@.bus.dmas <= final(self)@.bus.dmas <= old(self)@.bus.dmas + 1,
            old(self)@.cycles <= final(self)@.cycles <= old(self)@.cycles + 515,
    {
        self.x = self.a;
        let v: u8 = self.x;
        self.set_zn_flags(v);
    }

    /// TAY: copy A into Y; Z, N.
    fn inst_tay(&mut self)
        requires
            old(self).wf(),
            old(self).loaded(),
        ensures
            final(self).wf(),
            final(self).loaded(),
            final(self)@ == spec_inst_tay(old(self)@),
            final(self)@.nmis == old(self)@.nmis,
            final(self)@.bus.ppu.dots == old(self)@.bus.ppu.dots + 1536 * (final(self)@.bus.dmas
                - old(self)@.bus.dmas),
            old(self)@.bus.dmas <= final(self)@.bus.dmas <= old(self)@.bus.dmas + 1,
            old(self)@.cycles <= final(self)@.cycles <= old(self)@.cycles + 515,
    {
        self.y = self.a;
        let v: u8 = self.y;
        self.set_zn_flags(v);
    }

    /// TSX: copy S into X; Z, N.
    fn inst_tsx(&mut self)
        requires
            old(self).wf(),
            old(self).loaded(),
        ensures
            final(self).wf(),
            final(self).loaded(),
            final(self)@ == spec_inst_tsx(old(self)@),
            final(self)@.nmis == old(self)@.nmis,
            final(self)@.bus.ppu.dots == old(self)@.bus.ppu.dots + 1536 * (final(self)@.bus.dmas
                - old(self)@.bus.dmas),
            old(self)@.bus.dmas <= final(self)@.bus.dmas <= old(self)@.bus.dmas + 1,
            old(self)@.cycles <= final(self)@.cycles <= old(self)@.cycles + 515,
    {
        self.x = self.s;
        let v: u8 = self.x;
        self.set_zn_flags(v);
    }

    /// TXA: copy X into A; Z, N.
    fn inst_txa(&mut self)
        requires
            old(self).wf(),
            old(self).loaded(),
        ensures
            final(self).wf(),
            final(self).loaded(),
            final(self)@ == spec_inst_txa(old(self)@),
            final(self)@.nmis == old(self)@.nmis,
            final(self)@.bus.ppu.dots == old(self)@.bus.ppu.dots + 1536 * (final(self)@.bus.dmas
                - old(self)@.bus.dmas),
            old(self)@.bus.dmas <= final(self)@.bus.dmas <= old(self)@.bus.dmas + 1,
            old(self)@.cycles <= final(self)@.cycles <= old(self)@.cycles + 515,
    {
        self.a = self.x;
        let v: u8 = self.a;
        self.set_zn_flags(v);
    }

    /// TXS: copy X into S (no flags).
    fn inst_txs(&mut self)
        requires
            old(self).wf(),
            old(self).loaded(),
        ensures
            final(self).wf(),
            final(self).loaded(),
            final(self)@ == spec_inst_txs(old(self)@),
            final(self)@.nmis == old(self)@.nmis,
            final(self)@.bus.ppu.dots == old(self)@.bus.ppu.dots + 1536 * (final(self)@.bus.dmas
                - old(self)@.bus.dmas),
            old(self)@.bus.dmas <= final(self)@.bus.dmas <= old(self)@.bus.dmas + 1,
            old(self)@.cycles <= final(self)@.cycles <= old(self)@.cycles + 515,
    {
        self.s = self.x;
    }

    /// TYA: copy Y into A; Z, N.
    fn inst_tya(&mut self)
        requires
            old(self).wf(),
            old(self).loaded(),
        ensures
            final(self).wf(),
            final(self).loaded(),
            final(self)@ == spec_inst_tya(old(self)@),
            final(self)@.nmis == old(self)@.nmis,
            final(self)@.bus.ppu.dots == old(self)@.bus.ppu.dots + 1536 * (final(self)@.bus.dmas
                - old(self)@.bus.dmas),
            old(self)@.bus.dmas <= final(self)@.bus.dmas <= old(self)@.bus.dmas + 1,
            old(self)@.cycles <= final(self)@.cycles <= old(self)@.cycles + 515,
    {
        self.a = self.y;
        let v: u8 = self.a;
        self.set_zn_flags(v);
    }

    /// ASL (accumulator): shift left; C takes bit 7.
    fn inst_asl_accumulator(&mut self)
        requires
            old(self).wf(),
            old(self).loaded(),
        ensures
            final(self).wf(),
            final(self).loaded(),
            final(self)@ == spec_inst_asl_accumulator(old(self)@),
            final(self)@.nmis == old(self)@.nmis,
            final(self)@.bus.ppu.dots == old(self)@.bus.ppu.dots + 1536 * (final(self)@.bus.dmas
                - old(self)@.bus.dmas),
            old(self)@.bus.dmas <= final(self)@.bus.dmas <= old(self)@.bus.dmas + 1,
            old(self)@.cycles <= final(self)@.cycles <= old(self)@.cycles + 515,
    {
        let old_a: u8 = self.a;
        self.a = self.a.wrapping_mul(2);
        let result: u8 = self.a;
        self.set_zn_flags(result);
        self.p.set(FLAG_C, old_a & 0x80 != 0);
    }

    /// LSR (accumulator): shift right; C takes bit 0.
    fn inst_lsr_accumulator(&mut self)
        requires
            old(self).wf(),
            old(self).loaded(),
        ensures
            final(self).wf(),
            final(self).loaded(),
            final(self)@ == spec_inst_lsr_accumulator(old(self)@),
            final(self)@.nmis == old(self)@.nmis,
            final(self)@.bus.ppu.dots == old(self)@.bus.ppu.dots + 1536 * (final(self)@.bus.dmas
                - old(self)@.bus.dmas),
            old(self)@.bus.dmas <= final(self)@.bus.dmas <= old(self)@.bus.dmas + 1,
            old(self)@.cycles <= final(self)@.cycles <= old(self)@.cycles + 515,
    {
        let old_a: u8 = self.a;
        self.a = self.a / 2;
        let result: u8 = self.a;
        self.set_zn_flags(result);
        self.p.set(FLAG_C, old_a & 1 != 0);
    }

    /// ROL (accumulator): rotate left through carry.
    fn inst_rol_accumulator(&mut self)
        requires
            old(self).wf(),
            old(self).loaded(),
        ensures
            final(self).wf(),
            final(self).loaded(),
            final(self)@ == spec_inst_rol_accumulator(old(self)@),
            final(self)@.nmis == old(self)@.nmis,
            final(self)@.bus.ppu.dots == old(self)@.bus.ppu.dots + 1536 * (final(self)@.bus.dmas
                - old(self)@.bus.dmas),
            old(self)@.bus.dmas <= final(self)@.bus.dmas <= old(self)@.bus.dmas + 1,
            old(self)@.cycles <= final(self)@.cycles <= old(self)@.cycles + 515,
    {
        let carrybit: u8 = if self.p.contains(FLAG_C) {
            1
        } else {
            0
        };
        let old_a: u8 = self.a;
        self.a = self.a.wrapping_mul(2) + carrybit;
        let result: u8 = self.a;
        self.set_zn_flags(result);
        self.p.set(FLAG_C, old_a & 0x80 != 0);
    }

    /// ROR (accumulator): rotate right through carry.
    fn inst_ror_accumulator(&mut self)
        requires
            old(self).wf(),
            old(self).loaded(),
        ensures
            final(self).wf(),
            final(self).loaded(),
            final(self)@ == spec_inst_ror_accumulator(old(self)@),
            final(self)@.nmis == old(self)@.nmis,
            final(self)@.bus.ppu.dots == old(self)@.bus.ppu.dots + 1536 * (final(self)@.bus.dmas
                - old(self)@.bus.dmas),
            old(self)@.bus.dmas <= final(self)@.bus.dmas <= old(self)@.bus.dmas + 1,
            old(self)@.cycles <= final(self)@.cycles <= old(self)@.cycles + 515,
    {
        let carrybit: u8 = if self.p.contains(FLAG_C) {
            1
        } else {
            0
        };
        let old_a: u8 = self.a;
        self.a = self.a / 2 + carrybit * 128;
        let result: u8 = self.a;
        self.set_zn_flags(result);
        self.p.set(FLAG_C, old_a & 1 != 0);
    }

    /// ASL (memory): shift the operand byte left; C takes bit 7.
    fn inst_asl_memory(&mut self)
        requires
            old(self).wf(),
            old(self).loaded(),
            old(self)@.cycles + 1000 <= u64::MAX,
        ensures
            final(self).wf(),
            final(self).loaded(),
            old(self)@.operand != 0x4014 ==> final(self)@ == spec_inst_asl_memory(old(self)@),
            old(self)@.operand == 0x4014 ==> final(self)@ == (CpuV {
                bus: final(self)@.bus,
                cycles: (old(self)@.cycles + 513) as u64,
                ..spec_inst_asl_memory(old(self)@)
            }) && spec_dma_bus_effect(spec_bus_read(old(self)@.bus, old(self)@.operand).1, final(self)@.bus),
            final(self)@.nmis == old(self)@.nmis,
            final(self)@.bus.ppu.dots == old(self)@.bus.ppu.dots + 1536 * (final(self)@.bus.dmas
                - old(self)@.bus.dmas),
            old(self)@.bus.dmas <= final(self)@.bus.dmas <= old(self)@.bus.dmas + 1,
            old(self)@.cycles <= final(self)@.cycles <= old(self)@.cycles + 515,
    {
        let ghost c0 = self@;
        let memory: u8 = self.bus.read_u8(self.operand);
        let result: u8 = memory.wrapping_mul(2);
        self.bus_write_u8(self.operand, result);
        self.set_zn_flags(result);
        self.p.set(FLAG_C, memory & 0x80 != 0);
        proof {
            lemma_bus_read_preserves(c0.bus, c0.operand);
            if c0.operand != 0x4014 {
                lemma_bus_write_preserves(spec_bus_read(c0.bus, c0.operand).1, c0.operand, result);
            }
        }
    }

    /// LSR (memory): shift the operand byte right; C takes bit 0.
    fn inst_lsr_memory(&mut self)
        requires
            old(self).wf(),
            old(self).loaded(),
            old(self)@.cycles + 1000 <= u64::MAX,
        ensures
            final(self).wf(),
            final(self).loaded(),
            old(self)@.operand != 0x4014 ==> final(self)@ == spec_inst_lsr_memory(old(self)@),
            old(self)@.operand == 0x4014 ==> final(self)@ == (CpuV {
                bus: final(self)@.bus,
                cycles: (old(self)@.cycles + 513) as u64,
                ..spec_inst_lsr_memory(old(self)@)
            }) && spec_dma_bus_effect(spec_bus_read(old(self)@.bus, old(self)@.operand).1, final(self)@.bus),
            final(self)@.nmis == old(self)@.nmis,
            final(self)@.bus.ppu.dots == old(self)@.bus.ppu.dots + 1536 * (final(self)@.bus.dmas
                - old(self)@.bus.dmas),
            old(self)@.bus.dmas <= final(self)@.bus.dmas <= old(self)@.bus.dmas + 1,
            old(self)@.cycles <= final(self)@.cycles <= old(self)@.cycles + 515,
    {
        let ghost c0 = self@;
        let memory: u8 = self.bus.read_u8(self.operand);
        let result: u8 = memory / 2;
        self.bus_write_u8(self.operand, result);
        self.set_zn_flags(result);
        self.p.set(FLAG_C, memory & 1 != 0);
        proof {
            lemma_bus_read_preserves(c0.bus, c0.operand);
            if c0.operand != 0x4014 {
                lemma_bus_write_preserves(spec_bus_read(c0.bus, c0.operand).1, c0.operand, result);
            }
        }
    }

    /// ROL (memory): rotate the operand byte left through carry.
    fn inst_rol_memory(&mut self)
        requires
            old(self).wf(),
            old(self).loaded(),
            old(self)@.cycles + 1000 <= u64::MAX,
        ensures
            final(self).wf(),
            final(self).loaded(),
            old(self)@.operand != 0x4014 ==> final(self)@ == spec_inst_rol_memory(old(self)@),
            old(self)@.operand == 0x4014 ==> final(self)@ == (CpuV {
                bus: final(self)@.bus,
                cycles: (old(self)@.cycles + 513) as u64,
                ..spec_inst_rol_memory(old(self)@)
            }) && spec_dma_bus_effect(spec_bus_read(old(self)@.bus, old(self)@.operand).1, final(self)@.bus),
            final(self)@.nmis == old(self)@.nmis,
            final(self)@.bus.ppu.dots == old(self)@.bus.ppu.dots + 1536 * (final(self)@.bus.dmas
                - old(self)@.bus.dmas),
            old(self)@.bus.dmas <= final(self)@.bus.dmas <= old(self)@.bus.dmas + 1,
            old(self)@.cycles <= final(self)@.cycles <= old(self)@.cycles + 515,
    {
        let ghost c0 = self@;
        let memory: u8 = self.bus.read_u8(self.operand);
        let carrybit: u8 = if self.p.contains(FLAG_C) {
            1
        } else {
            0
        };
        let result: u8 = memory.wrapping_mul(2) + carrybit;
        self.bus_write_u8(self.operand, result);
        self.set_zn_flags(result);
        self.p.set(FLAG_C, memory & 0x80 != 0);
        proof {
            lemma_bus_read_preserves(c0.bus, c0.operand);
            if c0.operand != 0x4014 {
                lemma_bus_write_preserves(spec_bus_read(c0.bus, c0.operand).1, c0.operand, result);
            }
        }
    }

    /// ROR (memory): rotate the operand byte right through carry.
    fn inst_ror_memory(&mut self)
        requires
            old(self).wf(),
            old(self).loaded(),
            old(self)@.cycles + 1000 <= u64::MAX,
        ensures
            final(self).wf(),
            final(self).loaded(),
            old(self)@.operand != 0x4014 ==> final(self)@ == spec_inst_ror_memory(old(self)@),
            old(self)@.operand == 0x4014 ==> final(self)@ == (CpuV {
                bus: final(self)@.bus,
                cycles: (old(self)@.cycles + 513) as u64,
                ..spec_inst_ror_memory(old(self)@)
            }) && spec_dma_bus_effect(spec_bus_read(old(self)@.bus, old(self)@.operand).1, final(self)@.bus),
            final(self)@.nmis == old(self)@.nmis,
            final(self)@.bus.ppu.dots == old(self)@.bus.ppu.dots + 1536 * (final(self)@.bus.dmas
                - old(self)@.bus.dmas),
            old(self)@.bus.dmas <= final(self)@.bus.dmas <= old(self)@.bus.dmas + 1,
            old(self)@.cycles <= final(self)@.cycles <= old(self)@.cycles + 515,
    {
        let ghost c0 = self@;
        let memory: u8 = self.bus.read_u8(self.operand);
        let carrybit: u8 = if self.p.contains(FLAG_C) {
            1
        } else {
            0
        };
        let result: u8 = memory / 2 + carrybit * 128;
        self.bus_write_u8(self.operand, result);
        self.set_zn_flags(result);
        self.p.set(FLAG_C, memory & 1 != 0);
        proof {
            lemma_bus_read_preserves(c0.bus, c0.operand);
            if c0.operand != 0x4014 {
                lemma_bus_write_preserves(spec_bus_read(c0.bus, c0.operand).1, c0.operand, result);
            }
        }
    }

    /// DEC: decrement the operand byte in place; Z, N.
    fn inst_dec(&mut self)
        requires
            old(self).wf(),
            old(self).loaded(),
            old(self)@.cycles + 1000 <= u64::MAX,
        ensures
            final(self).wf(),
            final(self).loaded(),
            old(self)@.operand != 0x4014 ==> final(self)@ == spec_inst_dec(old(self)@),
            old(self)@.operand == 0x4014 ==> final(self)@ == (CpuV {
                bus: final(self)@.bus,
                cycles: (old(self)@.cycles + 513) as u64,
                ..spec_inst_dec(old(self)@)
            }) && spec_dma_bus_effect(spec_bus_read(old(self)@.bus, old(self)@.operand).1, final(self)@.bus),
            final(self)@.nmis == old(self)@.nmis,
            final(self)@.bus.ppu.dots == old(self)@.bus.ppu.dots + 1536 * (final(self)@.bus.dmas
                - old(self)@.bus.dmas),
            old(self)@.bus.dmas <= final(self)@.bus.dmas <= old(self)@.bus.dmas + 1,
            old(self)@.cycles <= final(self)@.cycles <= old(self)@.cycles + 515,
    {
        let ghost c0 = self@;
        let memory: u8 = self.bus.read_u8(self.operand);
        let result: u8 = memory.wrapping_sub(1);
        self.bus_write_u8(self.operand, result);
        self.set_zn_flags(result);
        proof {
            lemma_bus_read_preserves(c0.bus, c0.operand);
            if c0.operand != 0x4014 {
                lemma_bus_write_preserves(spec_bus_read(c0.bus, c0.operand).1, c0.operand, result);
            }
        }
    }

    /// INC: increment the operand byte in place; Z, N.
    fn inst_inc(&mut self)
        requires
            old(self).wf(),
            old(self).loaded(),
            old(self)@.cycles + 1000 <= u64::MAX,
        ensures
            final(self).wf(),
            final(self).loaded(),
            old(self)@.operand != 0x4014 ==> final(self)@ == spec_inst_inc(old(self)@),
            old(self)@.operand == 0x4014 ==> final(self)@ == (CpuV {
                bus: final(self)@.bus,
                cycles: (old(self)@.cycles + 513) as u64,
                ..spec_inst_inc(old(self)@)
            }) && spec_dma_bus_effect(spec_bus_read(old(self)@.bus, old(self)@.operand).1, final(self)@.bus),
            final(self)@.nmis == old(self)@.nmis,
            final(self)@.bus.ppu.dots == old(self)@.bus.ppu.dots + 1536 * (final(self)@.bus.dmas
                - old(self)@.bus.dmas),
            old(self)@.bus.dmas <= final(self)@.bus.dmas <= old(self)@.bus.dmas + 1,
            old(self)@.cycles <= final(self)@.cycles <= old(self)@.cycles + 515,
    {
        let ghost c0 = self@;
        let memory: u8 = self.bus.read_u8(self.operand);
        let result: u8 = memory.wrapping_add(1);
        self.bus_write_u8(self.operand, result);
        self.set_zn_flags(result);
        proof {
            lemma_bus_read_preserves(c0.bus, c0.operand);
            if c0.operand != 0x4014 {
                lemma_bus_write_preserves(spec_bus_read(c0.bus, c0.operand).1, c0.operand, result);
            }
        }
    }

    /// STA: store A to the operand address (a store to the OAM-DMA port runs the whole transfer).
    fn inst_sta(&mut self)
        requires
            old(self).wf(),
            old(self).loaded(),
            old(self)@.cycles + 1000 <= u64::MAX,
        ensures
            final(self).wf(),
            final(self).loaded(),
            old(self)@.operand != 0x4014 ==> final(self)@ == spec_inst_sta(old(self)@),
            old(self)@.operand == 0x4014 ==> final(self)@ == (CpuV {
                bus: final(self)@.bus,
                cycles: (old(self)@.cycles + 513) as u64,
                ..spec_inst_sta(old(self)@)
            }) && spec_dma_bus_effect(old(self)@.bus, final(self)@.bus),
            final(self)@.nmis == old(self)@.nmis,
            final(self)@.bus.ppu.dots == old(self)@.bus.ppu.dots + 1536 * (final(self)@.bus.dmas
                - old(self)@.bus.dmas),
            old(self)@.bus.dmas <= final(self)@.bus.dmas <= old(self)@.bus.dmas + 1,
            old(self)@.cycles <= final(self)@.cycles <= old(self)@.cycles + 515,
    {
        let ghost c0 = self@;
        let addr: u16 = self.operand;
        let value: u8 = self.a;
        self.bus_write_u8(addr, value);
        proof {
            if c0.operand != 0x4014 {
                lemma_bus_write_preserves(c0.bus, c0.operand, c0.a);
            }
        }
    }

    /// STX: store X to the operand address (a store to the OAM-DMA port runs the whole transfer).
    fn inst_stx(&mut self)
        requires
            old(self).wf(),
            old(self).loaded(),
            old(self)@.cycles + 1000 <= u64::MAX,
        ensures
            final(self).wf(),
            final(self).loaded(),
            old(self)@.operand != 0x4014 ==> final(self)@ == spec_inst_stx(old(self)@),
            old(self)@.operand == 0x4014 ==> final(self)@ == (CpuV {
                bus: final(self)@.bus,
                cycles: (old(self)@.cycles + 513) as u64,
                ..spec_inst_stx(old(self)@)
            }) && spec_dma_bus_effect(old(self)@.bus, final(self)@.bus),
            final(self)@.nmis == old(self)@.nmis,
            final(self)@.bus.ppu.dots == old(self)@.bus.ppu.dots + 1536 * (final(self)@.bus.dmas
                - old(self)@.bus.dmas),
            old(self)@.bus.dmas <= final(self)@.bus.dmas <= old(self)@.bus.dmas + 1,
            old(self)@.cycles <= final(self)@.cycles <= old(self)@.cycles + 515,
    {
        let ghost c0 = self@;
        let addr: u16 = self.operand;
        let value: u8 = self.x;
        self.bus_write_u8(addr, value);
        proof {
            if c0.operand != 0x4014 {
                lemma_bus_write_preserves(c0.bus, c0.operand, c0.x);
            }
        }
    }

    /// STY: store Y to the operand address (a store to the OAM-DMA port runs the whole transfer).
    fn inst_sty(&mut self)
        requires
            old(self).wf(),
            old(self).loaded(),
            old(self)@.cycles + 1000 <= u64::MAX,
        ensures
            final(self).wf(),
            final(self).loaded(),
            old(self)@.operand != 0x4014 ==> final(self)@ == spec_inst_sty(old(self)@),
            old(self)@.operand == 0x4014 ==> final(self)@ == (CpuV {
                bus: final(self)@.bus,
                cycles: (old(self)@.cycles + 513) as u64,
                ..spec_inst_sty(old(self)@)
            }) && spec_dma_bus_effect(old(self)@.bus, final(self)@.bus),
            final(self)@.nmis == old(self)@.nmis,
            final(self)@.bus.ppu.dots == old(self)@.bus.ppu.dots + 1536 * (final(self)@.bus.dmas
                - old(self)@.bus.dmas),
            old(self)@.bus.dmas <= final(self)@.bus.dmas <= old(self)@.bus.dmas + 1,
            old(self)@.cycles <= final(self)@.cycles <= old(self)@.cycles + 515,
    {
        let ghost c0 = self@;
        let addr: u16 = self.operand;
        let value: u8 = self.y;
        self.bus_write_u8(addr, value);
        proof {
            if c0.operand != 0x4014 {
                lemma_bus_write_preserves(c0.bus, c0.operand, c0.y);
            }
        }
    }

    /// JMP: jump to the operand address.
    fn inst_jmp(&mut self)
        requires
            old(self).wf(),
            old(self).loaded(),
        ensures
            final(self).wf(),
            final(self).loaded(),
            final(self)@ == spec_inst_jmp(old(self)@),
            final(self)@.nmis == old(self)@.nmis,
            final(self)@.bus.ppu.dots == old(self)@.bus.ppu.dots + 1536 * (final(self)@.bus.dmas
                - old(self)@.bus.dmas),
            old(self)@.bus.dmas <= final(self)@.bus.dmas <= old(self)@.bus.dmas + 1,
            old(self)@.cycles <= final(self)@.cycles <= old(self)@.cycles + 515,
    {
        self.pc = self.operand;
    }

    /// JSR: push the address of the last operand byte, then jump.
    fn inst_jsr(&mut self)
        requires
            old(self).wf(),
            old(self).loaded(),
            old(self)@.cycles + 1000 <= u64::MAX,
        ensures
            final(self).wf(),
            final(self).loaded(),
            final(self)@ == spec_inst_jsr(old(self)@),
            final(self)@.nmis == old(self)@.nmis,
            final(self)@.bus.ppu.dots == old(self)@.bus.ppu.dots + 1536 * (final(self)@.bus.dmas
                - old(self)@.bus.dmas),
            old(self)@.bus.dmas <= final(self)@.bus.dmas <= old(self)@.bus.dmas + 1,
            old(self)@.cycles <= final(self)@.cycles <= old(self)@.cycles + 515,
    {
        let ret_address: u16 = self.pc.wrapping_sub(1);
        self.push_u16(ret_address);
        self.pc = self.operand;
    }

    /// RTS: pull the return address and resume one byte past it.
    fn inst_rts(&mut self)
        requires
            old(self).wf(),
            old(self).loaded(),
        ensures
            final(self).wf(),
            final(self).loaded(),
            final(self)@ == spec_inst_rts(old(self)@),
            final(self)@.nmis == old(self)@.nmis,
            final(self)@.bus.ppu.dots == old(self)@.bus.ppu.dots + 1536 * (final(self)@.bus.dmas
                - old(self)@.bus.dmas),
            old(self)@.bus.dmas <= final(self)@.bus.dmas <= old(self)@.bus.dmas + 1,
            old(self)@.cycles <= final(self)@.cycles <= old(self)@.cycles + 515,
    {
        let addr: u16 = self.pop_u16();
        self.pc = addr.wrapping_add(1);
    }

    /// BRK: push PC and the status with B and U forced, set I, and vector through 0xFFFE.
    fn inst_brk(&mut self)
        requires
            old(self).wf(),
            old(self).loaded(),
            old(self)@.cycles + 1000 <= u64::MAX,
        ensures
            final(self).wf(),
            final(self).loaded(),
            final(self)@ == spec_inst_brk(old(self)@),
            final(self)@.nmis == old(self)@.nmis,
            final(self)@.bus.ppu.dots == old(self)@.bus.ppu.dots + 1536 * (final(self)@.bus.dmas
                - old(self)@.bus.dmas),
            old(self)@.bus.dmas <= final(self)@.bus.dmas <= old(self)@.bus.dmas + 1,
            old(self)@.cycles <= final(self)@.cycles <= old(self)@.cycles + 515,
    {
        let pc: u16 = self.pc;
        self.push_u16(pc);
        let status: u8 = self.p.get_bits() | FLAG_B | FLAG_U;
        self.push_u8(status);
        self.p.insert(FLAG_I);
        self.pc = self.bus.read_u16(IRQ_ADDRESS);
    }

    /// RTI: pull the status (B cleared, U forced), then pull PC.
    fn inst_rti(&mut self)
        requires
            old(self).wf(),
            old(self).loaded(),
        ensures
            final(self).wf(),
            final(self).loaded(),
            final(self)@ == spec_inst_rti(old(self)@),
            final(self)@.nmis == old(self)@.nmis,
            final(self)@.bus.ppu.dots == old(self)@.bus.ppu.dots + 1536 * (final(self)@.bus.dmas
                - old(self)@.bus.dmas),
            old(self)@.bus.dmas <= final(self)@.bus.dmas <= old(self)@.bus.dmas + 1,
            old(self)@.cycles <= final(self)@.cycles <= old(self)@.cycles + 515,
    {
        let status: u8 = self.pop_u8();
        self.p = StatusFlags::from_bits(status);
        self.p.remove(FLAG_B);
        self.p.insert(FLAG_U);
        self.pc = self.pop_u16();
    }

    /// PHA: push A.
    fn inst_pha(&mut self)
        requires
            old(self).wf(),
            old(self).loaded(),
            old(self)@.cycles + 1000 <= u64::MAX,
        ensures
            final(self).wf(),
            final(self).loaded(),
            final(self)@ == spec_inst_pha(old(self)@),
            final(self)@.nmis == old(self)@.nmis,
            final(self)@.bus.ppu.dots == old(self)@.bus.ppu.dots + 1536 * (final(self)@.bus.dmas
                - old(self)@.bus.dmas),
            old(self)@.bus.dmas <= final(self)@.bus.dmas <= old(self)@.bus.dmas + 1,
            old(self)@.cycles <= final(self)@.cycles <= old(self)@.cycles + 515,
    {
        let value: u8 = self.a;
        self.push_u8(value);
    }

    /// PHP: push the status with B and U forced on.
    fn inst_php(&mut self)
        requires
            old(self).wf(),
            old(self).loaded(),
            old(self)@.cycles + 1000 <= u64::MAX,
        ensures
            final(self).wf(),
            final(self).loaded(),
            final(self)@ == spec_inst_php(old(self)@),
            final(self)@.nmis == old(self)@.nmis,
            final(self)@.bus.ppu.dots == old(self)@.bus.ppu.dots + 1536 * (final(self)@.bus.dmas
                - old(self)@.bus.dmas),
            old(self)@.bus.dmas <= final(self)@.bus.dmas <= old(self)@.bus.dmas + 1,
            old(self)@.cycles <= final(self)@.cycles <= old(self)@.cycles + 515,
    {
        let status: u8 = self.p.get_bits() | FLAG_B | FLAG_U;
        self.push_u8(status);
    }

    /// PLA: pull A; Z, N.
    fn inst_pla(&mut self)
        requires
            old(self).wf(),
            old(self).loaded(),
        ensures
            final(self).wf(),
            final(self).loaded(),
            final(self)@ == spec_inst_pla(old(self)@),
            final(self)@.nmis == old(self)@.nmis,
            final(self)@.bus.ppu.dots == old(self)@.bus.ppu.dots + 1536 * (final(self)@.bus.dmas
                - old(self)@.bus.dmas),
            old(self)@.bus.dmas <= final(self)@.bus.dmas <= old(self)@.bus.dmas + 1,
            old(self)@.cycles <= final(self)@.cycles <= old(self)@.cycles + 515,
    {
        self.a = self.pop_u8();
        let v: u8 = self.a;
        self.set_zn_flags(v);
    }

    /// PLP: pull the status; U forced on, B cleared.
    fn inst_plp(&mut self)
        requires
            old(self).wf(),
            old(self).loaded(),
        ensures
            final(self).wf(),
            final(self).loaded(),
            final(self)@ == spec_inst_plp(old(self)@),
            final(self)@.nmis == old(self)@.nmis,
            final(self)@.bus.ppu.dots == old(self)@.bus.ppu.dots + 1536 * (final(self)@.bus.dmas
                - old(self)@.bus.dmas),
            old(self)@.bus.dmas <= final(self)@.bus.dmas <= old(self)@.bus.dmas + 1,
            old(self)@.cycles <= final(self)@.cycles <= old(self)@.cycles + 515,
    {
        let status: u8 = self.pop_u8();
        self.p = StatusFlags::from_bits(status);
        self.p.insert(FLAG_U);
        self.p.remove(FLAG_B);
    }

    /// Adds the branch cycles and moves PC when the condition holds.
    fn branch(&mut self, condition: bool)
        requires
            old(self).wf(),
            old(self).loaded(),
            old(self)@.cycles + 1000 <= u64::MAX,
        ensures
            final(self).wf(),
            final(self).loaded(),
            final(self)@ == spec_branch(old(self)@, condition),
    {
        if condition {
            let old_pc: u16 = self.pc;
            self.pc = self.pc.wrapping_add(self.operand);
            let add: u64 = if old_pc / 256 != self.pc / 256 {
                2
            } else {
                1
            };
            self.cycles = self.cycles + add;
        }
    }

    /// Runs the handler for one decoded instruction: exactly
    /// `spec_instruction_effect` unless the instruction stored to the
    /// OAM-DMA port, in which case the CPU-core projection (registers,
    /// flags, PC, RAM) still matches it and the 513 stall cycles and PPU
    /// window effects come on top.
    #[verifier::rlimit(100)]
    fn dispatch_instruction(&mut self, opcode: Opcode)
        requires
            old(self).wf(),
            old(self).loaded(),
            old(self)@.cycles + 1000 <= u64::MAX,
        ensures
            final(self).wf(),
            final(self).loaded(),
            final(self)@.nmis == old(self)@.nmis,
            final(self)@.bus.ppu.dots == old(self)@.bus.ppu.dots + 1536 * (final(self)@.bus.dmas
                - old(self)@.bus.dmas),
            old(self)@.bus.dmas <= final(self)@.bus.dmas <= old(self)@.bus.dmas + 1,
            old(self)@.cycles <= final(self)@.cycles <= old(self)@.cycles + 515,
            final(self)@.bus.dmas == old(self)@.bus.dmas ==> final(self)@
                == spec_instruction_effect(old(self)@, opcode.instr, opcode.mode),
            ({
                let eff = spec_instruction_effect(old(self)@, opcode.instr, opcode.mode);
                &&& final(self)@.a == eff.a
                &&& final(self)@.x == eff.x
                &&& final(self)@.y == eff.y
                &&& final(self)@.p == eff.p
                &&& final(self)@.s == eff.s
                &&& final(self)@.pc == eff.pc
                &&& final(self)@.operand == eff.operand
                &&& final(self)@.bus.ram == eff.bus.ram
                &&& final(self)@.bus.ppu.bus.cart == eff.bus.ppu.bus.cart
                &&& final(self)@.cycles == eff.cycles + 513 * (final(self)@.bus.dmas - old(
                    self,
                )@.bus.dmas)
            }),
            final(self)@.cycles <= old(self)@.cycles + (if spec_is_branch_instruction(
                opcode.instr,
            ) {
                2int
            } else {
                0int
            }) + 513 * (final(self)@.bus.dmas - old(self)@.bus.dmas),
    {
        match opcode.instr {
            Instruction::ADC => self.inst_adc(),
            Instruction::AND => self.inst_and(),
            Instruction::ASL => {
                if opcode.mode == AddressingMode::Acc {
                    self.inst_asl_accumulator()
                } else {
                    self.inst_asl_memory()
                }
            },
            Instruction::BCC => self.inst_bcc(),
            Instruction::BCS => self.inst_bcs(),
            Instruction::BEQ => self.inst_beq(),
            Instruction::BIT => self.inst_bit(),
            Instruction::BMI => self.inst_bmi(),
            Instruction::BNE => self.inst_bne(),
            Instruction::BPL => self.inst_bpl(),
            Instruction::BRK => self.inst_brk(),
            Instruction::BVC => self.inst_bvc(),
            Instruction::BVS => self.inst_bvs(),
            Instruction::CLC => self.inst_clc(),
            Instruction::CLD => self.inst_cld(),
            Instruction::CLI => self.inst_cli(),
            Instruction::CLV => self.inst_clv(),
            Instruction::CMP => self.inst_cmp(),
            Instruction::CPX => self.inst_cpx(),
            Instruction::CPY => self.inst_cpy(),
            Instruction::DEC => self.inst_dec(),
            Instruction::DEX => self.inst_dex(),
            Instruction::DEY => self.inst_dey(),
            Instruction::EOR => self.inst_eor(),
            Instruction::INC => self.inst_inc(),
            Instruction::INX => self.inst_inx(),
            Instruction::INY => self.inst_iny(),
            Instruction::JMP => self.inst_jmp(),
            Instruction::JSR => self.inst_jsr(),
            Instruction::LDA => self.inst_lda(),
            Instruction::LDX => self.inst_ldx(),
            Instruction::LDY => self.inst_ldy(),
            Instruction::LSR => {
                if opcode.mode == AddressingMode::Acc {
                    self.inst_lsr_accumulator()
                } else {
                    self.inst_lsr_memory()
                }
            },
            Instruction::NOP => (),
            Instruction::ORA => self.inst_ora(),
            Instruction::PHA => self.inst_pha(),
            Instruction::PHP => self.inst_php(),
            Instruction::PLA => self.inst_pla(),
            Instruction::PLP => self.inst_plp(),
            Instruction::ROL => {
                if opcode.mode == AddressingMode::Acc {
                    self.inst_rol_accumulator()
                } else {
                    self.inst_rol_memory()
                }
            },
            Instruction::ROR => {
                if opcode.mode == AddressingMode::Acc {
                    self.inst_ror_accumulator()
                } else {
                    self.inst_ror_memory()
                }
            },
            Instruction::RTI => self.inst_rti(),
            Instruction::RTS => self.inst_rts(),
            Instruction::SBC => self.inst_sbc(),
            Instruction::SEC => self.inst_sec(),
            Instruction::SED => self.inst_sed(),
            Instruction::SEI => self.inst_sei(),
            Instruction::STA => self.inst_sta(),
            Instruction::STX => self.inst_stx(),
            Instruction::STY => self.inst_sty(),
            Instruction::TAX => self.inst_tax(),
            Instruction::TAY => self.inst_tay(),
            Instruction::TSX => self.inst_tsx(),
            Instruction::TXA => self.inst_txa(),
            Instruction::TXS => self.inst_txs(),
            Instruction::TYA => self.inst_tya(),
        }
    }

}

/// The full effect of one fetch-decode-execute step on a state whose PC
/// points at a defined opcode: the fetch, the PC advance past the opcode,
/// the operand resolution, the mnemonic's transform, and the base-cycle
/// charge. (A store to the OAM-DMA port contributes its stall cycles and
/// PPU window on top of this; see `Olc6502::execute_instruction`.)
#[verifier::opaque]
pub open spec fn spec_execute_instruction(c: CpuV) -> CpuV
    recommends
        spec_opcode(spec_bus_read(c.bus, c.pc).0) is Some,
{
    let rd = spec_bus_read(c.bus, c.pc);
    let op = spec_opcode(rd.0)->Some_0;
    let c1 = (CpuV { bus: rd.1, pc: c.pc.wrapping_add(1), ..c });
    let c2 = spec_handle_addressing(c1, op.mode, op.cross_cycle);
    let c3 = spec_instruction_effect(c2, op.instr, op.mode);
    CpuV { cycles: (c3.cycles + op.cycles) as u64, ..c3 }
}

impl Olc6502 {
    /// Fetches, decodes and executes one instruction, returning the CPU
    /// cycles it cost (base cycles plus page-cross, branch and DMA-stall
    /// penalties). An opcode byte outside the instruction table halts the
    /// CPU with a decode error naming PC and the byte. On success the
    /// machine is exactly `spec_execute_instruction` of the old state,
    /// except after an OAM-DMA store, where the CPU-core projection still
    /// matches it and the stall cycles and PPU window land on top.
    #[verifier::rlimit(100)]
    pub fn execute_instruction(&mut self) -> (r: Result<u64, DecodeError>)
        requires
            old(self).wf(),
            old(self).loaded(),
            old(self)@.cycles + 2000 <= u64::MAX,
        ensures
            final(self).wf(),
            final(self).loaded(),
            ({
                let c = old(self)@;
                let rd = spec_bus_read(c.bus, c.pc);
                &&& (r is Ok <==> spec_opcode(rd.0) is Some)
                &&& (r is Err ==> final(self)@ == (CpuV { bus: rd.1, ..c }) && r->Err_0 == (
                DecodeError { pc: c.pc, opcode: rd.0 }))
                &&& (r is Ok ==> {
                    let op = spec_opcode(rd.0)->Some_0;
                    let e = spec_execute_instruction(c);
                    let dd = final(self)@.bus.dmas - c.bus.dmas;
                    &&& 2 <= r->Ok_0 <= 600
                    &&& final(self)@.cycles == c.cycles + r->Ok_0
                    &&& final(self)@.nmis == c.nmis
                    &&& final(self)@.bus.ppu.dots == c.bus.ppu.dots + 1536 * dd
                    &&& c.bus.dmas <= final(self)@.bus.dmas <= c.bus.dmas + 1
                    &&& (dd == 0 ==> final(self)@ == e)
                    &&& final(self)@.a == e.a
                    &&& final(self)@.x == e.x
                    &&& final(self)@.y == e.y
                    &&& final(self)@.p == e.p
                    &&& final(self)@.s == e.s
                    &&& final(self)@.pc == e.pc
                    &&& final(self)@.operand == e.operand
                    &&& final(self)@.bus.ram == e.bus.ram
                    &&& final(self)@.bus.ppu.bus.cart == e.bus.ppu.bus.cart
                    &&& final(self)@.cycles == e.cycles + 513 * dd
                    &&& op.cycles <= r->Ok_0 <= op.cycles + 2 + 513 * dd
                })
            }),
    {
        proof {
            reveal(spec_execute_instruction);
        }
        let pc0: u16 = self.pc;
        let current_byte: u8 = self.bus.read_u8(pc0);
        let opcode: Opcode = match Opcode::lookup(current_byte) {
            Some(op) => op,
            None => {
                return Err(DecodeError { pc: pc0, opcode: current_byte });
            },
        };
        let old_cycles: u64 = self.cycles;
        self.pc = self.pc.wrapping_add(1);
        self.handle_addressing(opcode.mode, opcode.cross_cycle);
        self.dispatch_instruction(opcode);
        self.cycles = self.cycles + opcode.cycles as u64;
        Ok(self.cycles - old_cycles)
    }

    /// Services one pending NMI: the interrupt entry, then the six dummy
    /// PPU dots that model its latency.
    fn service_nmi(&mut self)
        requires
            old(self).wf(),
            old(self).loaded(),
            old(self)@.cycles + 1000 <= u64::MAX,
        ensures
            final(self).wf(),
            final(self).loaded(),
            final(self)@.nmis == old(self)@.nmis + 1,
            final(self)@.cycles == old(self)@.cycles + 7,
            final(self)@.bus.dmas == old(self)@.bus.dmas,
            final(self)@.bus.ppu.dots == old(self)@.bus.ppu.dots + 6,
            final(self)@.bus.ppu.bus.cart == old(self)@.bus.ppu.bus.cart,
            ({
                let f = spec_nmi_effect(old(self)@);
                &&& final(self)@.a == f.a
                &&& final(self)@.x == f.x
                &&& final(self)@.y == f.y
                &&& final(self)@.p == f.p
                &&& final(self)@.s == f.s
                &&& final(self)@.pc == f.pc
                &&& final(self)@.operand == f.operand
                &&& final(self)@.cycles == f.cycles
                &&& final(self)@.bus.ram == f.bus.ram
            }),
    {
        self.nmi();
        self.bus.ppu.tick();
        self.bus.ppu.tick();
        self.bus.ppu.tick();
        self.bus.ppu.tick();
        self.bus.ppu.tick();
        self.bus.ppu.tick();
    }

    /// Advances the machine by one instruction and its PPU dots: exactly
    /// three dots per instruction cycle, then, for each NMI the PPU raised
    /// during those dots, the interrupt entry (7 CPU cycles) plus six more
    /// dots. An OAM-DMA transfer triggered by the instruction contributes
    /// its 1536 window dots on top of the three-per-cycle dots of the 513
    /// stall cycles. The PPU dot ledger reads
    /// dots' - dots == 3 * (instruction cycles) + 6 * (NMIs taken)
    ///              + 1536 * (DMA transfers),
    /// where the cycle counter grows by the instruction cycles plus 7 per
    /// NMI taken. On success, the CPU core (registers, flags, PC, RAM and
    /// the cycle counter) lands exactly on `spec_execute_instruction`
    /// followed by one `spec_nmi_effect` per NMI taken.
    #[verifier::rlimit(100)]
    pub fn tick(&mut self) -> (r: Result<(), DecodeError>)
        requires
            old(self).wf(),
            old(self).loaded(),
            old(self)@.cycles + 100000 <= u64::MAX,
        ensures
            final(self).wf(),
            final(self).loaded(),
            ({
                let c = old(self)@;
                let q = final(self)@;
                let rd = spec_bus_read(c.bus, c.pc);
                &&& (r is Ok <==> spec_opcode(rd.0) is Some)
                &&& (r is Err ==> q == (CpuV { bus: rd.1, ..c }) && r->Err_0 == (DecodeError {
                    pc: c.pc,
                    opcode: rd.0,
                }))
                &&& (r is Ok ==> {
                    let dc = q.cycles - c.cycles;
                    let dn = q.nmis - c.nmis;
                    let dd = q.bus.dmas - c.bus.dmas;
                    let e = spec_execute_instruction(c);
                    let f = spec_nmi_iter(
                        (CpuV { cycles: (e.cycles + 513 * dd) as u64, ..e }),
                        dn as nat,
                    );
                    &&& q.bus.ppu.dots == c.bus.ppu.dots + 3 * (dc - 7 * dn) + 6 * dn + 1536 * dd
                    &&& c.cycles <= q.cycles <= c.cycles + 20000
                    &&& dd <= 1
                    &&& c.nmis <= q.nmis
                    &&& q.a == f.a
                    &&& q.x == f.x
                    &&& q.y == f.y
                    &&& q.p == f.p
                    &&& q.s == f.s
                    &&& q.pc == f.pc
                    &&& q.operand == f.operand
                    &&& q.cycles == f.cycles
                    &&& q.bus.ram == f.bus.ram
                })
            }),
    {
        let ghost c0 = self@;
        let cycles_ran: u64 = match self.execute_instruction() {
            Ok(k) => k,
            Err(e) => {
                return Err(e);
            },
        };
        let ghost c1 = self@;
        let total: u64 = cycles_ran * 3;
        let mut i: u64 = 0;
        while i < total
            invariant
                self.wf(),
                self.loaded(),
                i <= total,
                total == cycles_ran * 3,
                cycles_ran <= 600,
                c1.cycles <= c0.cycles + 600,
                c0.cycles + 100000 <= u64::MAX,
                self@.bus.dmas == c1.bus.dmas,
                c1.nmis <= self@.nmis,
                self@.nmis - c1.nmis <= i,
                self@.cycles == c1.cycles + 7 * (self@.nmis - c1.nmis),
                self@.bus.ppu.dots == c1.bus.ppu.dots + i + 6 * (self@.nmis - c1.nmis),
                self@.bus.ppu.bus.cart == c1.bus.ppu.bus.cart,
                ({
                    let f = spec_nmi_iter(c1, (self@.nmis - c1.nmis) as nat);
                    &&& self@.a == f.a
                    &&& self@.x == f.x
                    &&& self@.y == f.y
                    &&& self@.p == f.p
                    &&& self@.s == f.s
                    &&& self@.pc == f.pc
                    &&& self@.operand == f.operand
                    &&& self@.cycles == f.cycles
                    &&& self@.bus.ram == f.bus.ram
                }),
            decreases total - i,
        {
            self.bus.ppu.tick();
            if self.bus.ppu.get_should_nmi() {
                self.bus.ppu.clear_should_nmi();
                let ghost pre_nmi = self@;
                self.service_nmi();
                proof {
                    lemma_nmi_iter_cart(c1, (pre_nmi.nmis - c1.nmis) as nat);
                    lemma_nmi_iter_congruence(
                        pre_nmi,
                        spec_nmi_iter(c1, (pre_nmi.nmis - c1.nmis) as nat),
                        1,
                    );
                    assert((self@.nmis - c1.nmis) as nat == (pre_nmi.nmis - c1.nmis) as nat + 1);
                    assert(spec_nmi_iter(c1, (self@.nmis - c1.nmis) as nat) == spec_nmi_effect(
                        spec_nmi_iter(c1, (pre_nmi.nmis - c1.nmis) as nat),
                    ));
                    assert(spec_nmi_iter(pre_nmi, 1) == spec_nmi_effect(spec_nmi_iter(pre_nmi, 0)));
                    assert(spec_nmi_iter(pre_nmi, 0) == pre_nmi);
                    assert(spec_nmi_iter(spec_nmi_iter(c1, (pre_nmi.nmis - c1.nmis) as nat), 1)
                        == spec_nmi_effect(spec_nmi_iter(spec_nmi_iter(c1, (pre_nmi.nmis
                        - c1.nmis) as nat), 0)));
                    assert(spec_nmi_iter(spec_nmi_iter(c1, (pre_nmi.nmis - c1.nmis) as nat), 0)
                        == spec_nmi_iter(c1, (pre_nmi.nmis - c1.nmis) as nat));
                }
            }
            i = i + 1;
        }
        proof {
            let e = spec_execute_instruction(c0);
            let dd = c1.bus.dmas - c0.bus.dmas;
            lemma_nmi_iter_congruence(
                c1,
                (CpuV { cycles: (e.cycles + 513 * dd) as u64, ..e }),
                (self@.nmis - c1.nmis) as nat,
            );
        }
        Ok(())
    }
}

/// Stack round trip: pushing a 16-bit word and popping it returns the word
/// and restores the stack pointer, for every starting state.
pub proof fn lemma_stack_roundtrip_u16(c: CpuV, w: u16)
    requires
        c.bus.ram.len() == 0x800,
    ensures
        spec_pop_u16(spec_push_u16(c, w)).0 == w,
        spec_pop_u16(spec_push_u16(c, w)).1.s == c.s,
{
    let s = c.s;
    assert(s.wrapping_sub(1).wrapping_sub(1).wrapping_add(1) == s.wrapping_sub(1)) by (bit_vector);
    assert(s.wrapping_sub(1).wrapping_add(1) == s) by (bit_vector);
    assert(w / 256 < 256);
    assert(w / 256 * 256 + w % 256 == w);
}

/// Stack round trip for one byte: pushing and popping returns the byte and
/// restores the stack pointer.
pub proof fn lemma_stack_roundtrip_u8(c: CpuV, b: u8)
    requires
        c.bus.ram.len() == 0x800,
    ensures
        spec_pop_u8(spec_push_u8(c, b)).0 == b,
        spec_pop_u8(spec_push_u8(c, b)).1.s == c.s,
{
    let s = c.s;
    assert(s.wrapping_sub(1).wrapping_add(1) == s) by (bit_vector);
}

/// PHP followed by PLP: the byte PHP stacks comes back through PLP with
/// the observable flags (C, Z, I, D, V, N) unchanged, U reading 1 and B
/// reading 0, and the stack pointer restored.
pub proof fn lemma_php_plp_roundtrip(c: CpuV)
    requires
        c.bus.ram.len() == 0x800,
    ensures
        ({
            let c1 = spec_push_u8(c, c.p | FLAG_B | FLAG_U);
            let po = spec_pop_u8(c1);
            let p2 = (po.0 | FLAG_U) & !FLAG_B;
            &&& flag_set(p2, FLAG_C) == flag_set(c.p, FLAG_C)
            &&& flag_set(p2, FLAG_Z) == flag_set(c.p, FLAG_Z)
            &&& flag_set(p2, FLAG_I) == flag_set(c.p, FLAG_I)
            &&& flag_set(p2, FLAG_D) == flag_set(c.p, FLAG_D)
            &&& flag_set(p2, FLAG_V) == flag_set(c.p, FLAG_V)
            &&& flag_set(p2, FLAG_N) == flag_set(c.p, FLAG_N)
            &&& flag_set(p2, FLAG_U)
            &&& !flag_set(p2, FLAG_B)
            &&& po.1.s == c.s
        }),
{
    let s = c.s;
    assert(s.wrapping_sub(1).wrapping_add(1) == s) by (bit_vector);
    let p = c.p;
    assert({
        let p2 = ((p | 0x10 | 0x20) | 0x20) & !0x10u8;
        (p2 & 0x01 != 0) == (p & 0x01 != 0) && (p2 & 0x02 != 0) == (p & 0x02 != 0) && (p2 & 0x04
            != 0) == (p & 0x04 != 0) && (p2 & 0x08 != 0) == (p & 0x08 != 0) && (p2 & 0x40 != 0) == (
        p & 0x40 != 0) && (p2 & 0x80 != 0) == (p & 0x80 != 0) && (p2 & 0x20 != 0) && (p2 & 0x10
            == 0)
    }) by (bit_vector);
}

} // verus!
