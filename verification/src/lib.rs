//! Core of a 6502-based NES emulator: a byte-addressable memory model with
//! mirroring, the NROM cartridge mapper, the CPU register file and
//! instruction engine, and iNES cartridge-image parsing.

pub mod cpu;
pub mod ines;
pub mod mapper;
pub mod memory;
pub mod ppu;
pub mod rom;
