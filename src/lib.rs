//! A cycle-level emulator core for an 8-bit home game console: CPU, picture
//! unit, audio unit, memory bus and cartridge banking, each with its contract.

pub mod alu;
pub mod apu;
pub mod bus;
pub mod cartridge;
pub mod controller;
pub mod cpu;
pub mod nes;
pub mod opcodes;
pub mod ppu;
