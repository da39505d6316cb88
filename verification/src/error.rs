//! The failures the machine can report.

use vstd::prelude::*;

verus! {

/// Every way in which decoding or executing an instruction can fail.
#[derive(Debug, Clone, Copy, PartialEq, Eq, Structural)]
pub enum VMError {
    /// A value was popped from an empty stack.
    StackUnderflow,
    /// A memory address lay outside the memory.
    MemoryOutOfBounds,
    /// A jump target lay outside the program.
    InvalidJumpTarget,
    /// A byte that encodes no instruction stood where an instruction was due.
    InvalidOpcode,
    /// An instruction needed an operand byte beyond the end of the program.
    InvalidProgramCounter,
    /// The top of an empty stack was to be duplicated.
    StackIsEmpty,
    /// The stack was too shallow for a stack-shuffling instruction.
    NotEnoughItemsInStack,
}

impl VMError {
    /// The text that describes each failure.
    pub open spec fn text(self) -> Seq<char> {
        match self {
            VMError::StackUnderflow => "Stack underflow"@,
            VMError::MemoryOutOfBounds => "Memory access out of bounds"@,
            VMError::InvalidJumpTarget => "Jump target outside program bounds"@,
            VMError::InvalidOpcode => "Invalid opcode"@,
            VMError::InvalidProgramCounter => "Program counter exceeded bytecode length"@,
            VMError::StackIsEmpty => "Stack is empty"@,
            VMError::NotEnoughItemsInStack => "Not enough items in stack"@,
        }
    }

    /// A human-readable description of the failure.
    pub fn message(&self) -> (s: &'static str)
        ensures
            s@ == self.text(),
    {
        match self {
            VMError::StackUnderflow => "Stack underflow",
            VMError::MemoryOutOfBounds => "Memory access out of bounds",
            VMError::InvalidJumpTarget => "Jump target outside program bounds",
            VMError::InvalidOpcode => "Invalid opcode",
            VMError::InvalidProgramCounter => "Program counter exceeded bytecode length",
            VMError::StackIsEmpty => "Stack is empty",
            VMError::NotEnoughItemsInStack => "Not enough items in stack",
        }
    }
}

} // verus!
