//! An emulator of the MOS 6502 instruction set.
//!
//! The processor runs against any memory that offers single-byte reads and
//! writes. Each executable function is proved against a mathematical account
//! of the instruction set:
//!
//! - `opcodes`: mnemonics, addressing modes, and the decoding table;
//! - `status`: the status register as a set of flags;
//! - `memory`: the memory capability and its little-endian 16-bit accesses;
//! - `flat`: 64 KiB of plain storage;
//! - `bus`: the console's memory map, with mirrored RAM and program ROM;
//! - `semantics`: what every instruction does to the state of the machine;
//! - `cpu`: the processor itself, with fetch, decode, execute and run;
//! - `laws`: properties that hold of every state and every memory;
//! - `screen`: the picture and keyboard conventions of a guest program.

pub mod bus;
pub mod cpu;
pub mod flat;
pub mod laws;
pub mod memory;
pub mod opcodes;
pub mod screen;
pub mod semantics;
pub mod status;
