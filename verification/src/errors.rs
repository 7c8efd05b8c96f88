use vstd::prelude::*;

verus! {

/// Every way a load or an execution step can fail.
///
/// Each error is terminal for the running program: the machine state is
/// left exactly as it was before the faulting operation, and the embedding
/// host decides how to present the failure.
#[derive(Clone, Copy, Debug, PartialEq, Eq, Structural)]
pub enum Chip8Error {
    /// The instruction word matches no defined opcode pattern.  Carries the
    /// address the word was fetched from and the raw word itself.
    UnknownOpcode { addr: u16, word: u16 },
    /// A call (2NNN) would push beyond the 32-entry stack.
    StackOverflow,
    /// A return (00EE) was executed with an empty stack.
    StackUnderflow,
    /// A runtime-computed address reaches at or beyond the 4096-byte
    /// memory.  Carries the index register at the time of the fault.
    OutOfBounds { index: u16 },
    /// A program image does not fit between 0x200 and the end of memory.
    ProgramTooLarge,
}

} // verus!
