//! Core of a Game Boy (DMG) emulator: the flags register, the memory map,
//! the LR35902 instruction engine, timers, interrupts and a minimal picture unit.

pub mod flags;
pub mod alu;
pub mod input;
pub mod memory;
pub mod clock;
pub mod cpu;
pub mod gpu;
pub mod opcodes;
