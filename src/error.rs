use vstd::prelude::*;

verus! {

/// The fatal conditions that stop the machine.
#[derive(Debug, Clone, Copy, PartialEq, Eq, Structural)]
pub enum ChipError {
    /// The fetched word matches no instruction of the machine.
    UnrecognizedInstruction(u16),
    /// A register operand is not below sixteen.
    RegisterIndexOutOfRange(u8),
    /// An access would touch memory at or past its capacity.
    AddressOutOfBounds(u16),
    /// A return was executed with an empty call stack.
    StackUnderflow,
    /// A call was executed with the call stack full.
    StackOverflow,
    /// The run loop executed its maximal number of instructions without halting.
    StepLimitReached,
}

} // verus!
