//! Cycle-stepped 6502-family CPU core with its address-space bus and
//! cartridge storage, as used by a game-console emulator.

pub mod memory;
pub mod bus;
pub mod opcodes;
pub mod cpu;
pub mod emulator;
