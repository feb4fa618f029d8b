//! Emulation core for a classic 8-bit handheld game console: a 64 KiB
//! byte-addressable memory, an eight-register file with paired 16-bit views,
//! a four-flag arithmetic/logic model, an opcode decoder (with a secondary
//! extended table), an instruction interpreter, and a cycle-accounting
//! scheduler that drives a memory-mapped scanline counter.

pub mod alu;
pub mod bootrom;
pub mod cpu;
pub mod cycles;
pub mod flags;
pub mod instructions;
pub mod memory;
pub mod opcode_parser;
pub mod registers;
pub mod rom;
pub mod semantics;
