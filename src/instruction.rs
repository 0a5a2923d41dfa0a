use vstd::prelude::*;
use vstd::bytes::{spec_u64_from_le_bytes, u64_from_le_bytes};
use vstd::slice::slice_subrange;
use crate::error::CounterError;

verus! {

/// Tag byte of `InitializeCounter`.
pub const INITIALIZE_TAG: u8 = 0;

/// Tag byte of `IncrementCounter`.
pub const INCREMENT_TAG: u8 = 1;

/// A decoded command.
#[derive(Debug, Clone, Copy, PartialEq, Eq, Structural)]
pub enum CounterInstruction {
    /// Creates the counter account and stores `initial_value` in it.
    InitializeCounter { initial_value: u64 },
    /// Adds one to the stored count.
    IncrementCounter,
}

/// What the instruction bytes `input` decode to.
///
/// Wire format: one tag byte, then for `InitializeCounter` exactly eight bytes
/// holding `initial_value` little-endian (the same order as the stored state);
/// bytes after the tag of `IncrementCounter` are ignored.
pub open spec fn unpacked(input: Seq<u8>) -> Result<CounterInstruction, CounterError> {
    if input.len() == 0 {
        Err(CounterError::InvalidInstructionData)
    } else if input[0] == INITIALIZE_TAG {
        if input.len() == 9 {
            Ok(
                CounterInstruction::InitializeCounter {
                    initial_value: spec_u64_from_le_bytes(input.subrange(1, 9)),
                },
            )
        } else {
            Err(CounterError::InvalidInstructionData)
        }
    } else if input[0] == INCREMENT_TAG {
        Ok(CounterInstruction::IncrementCounter)
    } else {
        Err(CounterError::InvalidInstructionData)
    }
}

impl CounterInstruction {
    /// Decodes the instruction bytes into a command.
    pub fn unpack(input: &[u8]) -> (r: Result<CounterInstruction, CounterError>)
        ensures
            r == unpacked(input@),
    {
        if input.len() == 0 {
            return Err(CounterError::InvalidInstructionData);
        }
        let tag = input[0];
        if tag == INITIALIZE_TAG {
            if input.len() != 9 {
                return Err(CounterError::InvalidInstructionData);
            }
            let payload = slice_subrange(input, 1, 9);
            let initial_value = u64_from_le_bytes(payload);
            Ok(CounterInstruction::InitializeCounter { initial_value })
        } else if tag == INCREMENT_TAG {
            Ok(CounterInstruction::IncrementCounter)
        } else {
            Err(CounterError::InvalidInstructionData)
        }
    }
}

/// Empty input, and any tag but the two known ones, is refused as invalid
/// instruction data.
pub proof fn lemma_unknown_tag_rejected(input: Seq<u8>)
    requires
        input.len() == 0 || (input[0] != INITIALIZE_TAG && input[0] != INCREMENT_TAG),
    ensures
        unpacked(input) == Err::<CounterInstruction, CounterError>(
            CounterError::InvalidInstructionData,
        ),
{
}

/// An `InitializeCounter` tag followed by anything but eight bytes is refused
/// as invalid instruction data.
pub proof fn lemma_initialize_payload_length(input: Seq<u8>)
    requires
        input.len() > 0,
        input[0] == INITIALIZE_TAG,
        input.len() != 9,
    ensures
        unpacked(input) == Err::<CounterInstruction, CounterError>(
            CounterError::InvalidInstructionData,
        ),
{
}

} // verus!
