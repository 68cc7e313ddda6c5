//! Decoding of encoded instructions.

pub mod decode_arm;

use crate::decode::decode_arm::{decode_arm, decode_arm_spec, lemma_decode_arm_gives_wf};
use crate::instruction::{EncodedInstruction, Instruction};
use vstd::prelude::*;

verus! {

/// Why a word is not an instruction.
#[derive(Clone, Copy, PartialEq, Eq, Structural, Debug)]
pub enum DecodeError {
    /// The word belongs to an instruction class that has no instruction for
    /// its selector bits.
    Unrecognised(u32),
    /// The word is an encoding whose effect the architecture leaves open.
    Unpredictable(u32),
    /// The halfword is a Thumb instruction: that instruction set has no
    /// decoder.
    Thumb(u16),
}

/// The instruction that a fetched value encodes.
pub open spec fn decode_spec(instruction: EncodedInstruction) -> Result<Instruction, DecodeError> {
    match instruction {
        EncodedInstruction::Thumb(bits) => Err(DecodeError::Thumb(bits)),
        EncodedInstruction::Arm(bits) => decode_arm_spec(bits),
    }
}

/// Decodes a fetched instruction. An ARM word goes to the ARM decoder; a
/// Thumb halfword is refused.
pub fn decode(instruction: EncodedInstruction) -> (r: Result<Instruction, DecodeError>)
    ensures
        r == decode_spec(instruction),
        r matches Ok(i) ==> i.wf(),
{
    match instruction {
        EncodedInstruction::Thumb(bits) => Err(DecodeError::Thumb(bits)),
        EncodedInstruction::Arm(bits) => decode_arm(bits),
    }
}

/// Every instruction that a fetched value decodes to is well-formed.
pub proof fn lemma_decode_gives_wf(instruction: EncodedInstruction)
    ensures
        decode_spec(instruction) matches Ok(i) ==> i.wf(),
{
    if let EncodedInstruction::Arm(bits) = instruction {
        lemma_decode_arm_gives_wf(bits);
    }
}

} // verus!
