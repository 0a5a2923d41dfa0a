use vstd::prelude::*;

verus! {

/// The failures that the counter reports to the caller of an invocation.
#[derive(Debug, Clone, Copy, PartialEq, Eq, Structural)]
pub enum CounterError {
    /// Fewer accounts were supplied than the command needs.
    NotEnoughAccountKeys,
    /// The instruction bytes do not encode a command.
    InvalidInstructionData,
    /// The counter account is not owned by the invoking program.
    IncorrectProgramId,
    /// The stored bytes are not a counter state, or the counter would overflow.
    InvalidAccountData,
}

} // verus!
