use vstd::prelude::*;

use crate::instruction::Instruction;

verus! {

/// The closed error taxonomy of the machine. Every failure of a step is one
/// of these; the machine never retries internally.
#[derive(Debug, Clone, Copy, PartialEq, Eq, Structural)]
pub enum Error {
    MemoryOutOfBound,
    InvalidInstruction(u16),
    NotImplementedYet(Instruction),
    StackUnderflow,
    StackOverflow,

    InvalidIndexAddress(u16),
    IndexOverflow(u16),
    InvalidProgramCounter(u16),
    UnalignedProgramCounter(u16),

    InvalidKeyIndex(u8),
}

} // verus!
