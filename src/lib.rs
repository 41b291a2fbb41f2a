//! A cycle-timed NES emulator core: the 6502 CPU, the PPU, the cartridge
//! and its mappers, the controller, and the bus that joins them, each with
//! its behaviour stated in contracts and proved.

pub mod bus;
pub mod cartridge;
pub mod cpu;
pub mod flags;
pub mod joypad;
pub mod mapper;
pub mod opcodes;
pub mod ppu;
pub mod trace;
