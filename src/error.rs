use vstd::prelude::*;

use crate::inst_format::{BFormat, IFormat, RFormat, SFormat};

verus! {

/// Why a run of the emulator stopped without an exit call.
#[derive(Debug)]
pub enum Error {
    /// The low 7 bits of the instruction word name no known opcode.
    InvalidOpcode(usize),
    /// The opcode is known but its funct3 / funct7 combination is not.
    InvalidInstFormat(FormatError),
    /// An instruction was to be fetched at or past the end of memory
    /// (the address, the memory size).
    InvalidPC(u32, usize),
    /// The fetched word was zero: the program ran off the end of its code.
    EndOfInstructions,
    /// A load or store reached past the end of memory (the effective
    /// address, the memory size).
    InvalidAddress(u32, usize),
    /// The run used up its whole budget of cycles without terminating.
    CycleLimit,
}

/// The decoded fields of an instruction whose funct codes were rejected.
#[derive(Debug)]
pub enum FormatError {
    R(RFormat),
    I(IFormat),
    S(SFormat),
    B(BFormat),
}

} // verus!
