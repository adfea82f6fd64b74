//! An interpreting emulator for the 32-bit base integer instruction set of
//! RISC-V: memory, registers, program counter, decoder and execution unit.

pub mod memory;
pub mod error;
pub mod inst_format;
pub mod pc;
pub mod regs;
pub mod cpu;
pub mod inst;
