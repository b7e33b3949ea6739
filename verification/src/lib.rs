//! A cycle-counting emulator core for the RP2A03, the 6502-derived CPU of the
//! NES, together with a reader for the iNES cartridge container.
//!
//! Every executable function carries a contract over a mathematical model of
//! the machine: [`cpu::RegisterState`] for the register file and `Seq<u8>`
//! for the 64 KiB address space.

pub mod cpu;
pub mod opcode;
pub mod rom;
