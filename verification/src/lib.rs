//! Core of a cycle-stepped NES emulator: the 6502 CPU interpreter, the PPU
//! pixel pipeline, the buses that couple them, the NROM cartridge mapper and
//! the controller ports. The host drives `Olc6502::tick`, which executes one
//! instruction and advances the PPU three dots per CPU cycle; the PPU raises
//! a non-maskable interrupt back into the CPU at vblank entry.

pub mod address_register;
pub mod bus;
pub mod cpu;
pub mod instructions;
pub mod joypad;
pub mod mapper0;
pub mod oam_sprite;
pub mod ppu;
pub mod ppu_bus;
pub mod ppu_ctrl;
pub mod ppu_mask;
pub mod ppu_registers;
pub mod ppu_status;
pub mod rom;
pub mod status;
pub mod util;
