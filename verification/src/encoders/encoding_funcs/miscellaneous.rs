//! Encoders that Intel's manual does not list as instructions of their own.
use vstd::prelude::*;

use crate::encoders::utils::helpers::{
    lemma_prefixes_come_first, prefixes_come_first, InstructionParts,
};
use crate::models::EncodedX86_64Instruction;

verus! {

/// The no-operation sequence that Intel recommends for each length from one
/// byte to nine; empty for any other length.
pub open spec fn nop_bytes(length: u8) -> Seq<u8> {
    if length == 1 {
        seq![0x90u8]
    } else if length == 2 {
        seq![0x66u8, 0x90u8]
    } else if length == 3 {
        seq![0x0Fu8, 0x1Fu8, 0x00u8]
    } else if length == 4 {
        seq![0x0Fu8, 0x1Fu8, 0x40u8, 0x00u8]
    } else if length == 5 {
        seq![0x0Fu8, 0x1Fu8, 0x44u8, 0x00u8, 0x00u8]
    } else if length == 6 {
        seq![0x66u8, 0x0Fu8, 0x1Fu8, 0x44u8, 0x00u8, 0x00u8]
    } else if length == 7 {
        seq![0x0Fu8, 0x1Fu8, 0x80u8, 0x00u8, 0x00u8, 0x00u8, 0x00u8]
    } else if length == 8 {
        seq![0x0Fu8, 0x1Fu8, 0x84u8, 0x00u8, 0x00u8, 0x00u8, 0x00u8, 0x00u8]
    } else if length == 9 {
        seq![0x66u8, 0x0Fu8, 0x1Fu8, 0x84u8, 0x00u8, 0x00u8, 0x00u8, 0x00u8, 0x00u8]
    } else {
        Seq::empty()
    }
}

/// The parts of the no-operation sequence of each length from one byte to
/// nine: `NOP` itself for one byte and for two, the form of `NOP` that
/// names a memory operand for more, and before them the operand-size
/// override for two bytes, for six and for nine.
pub open spec fn nop_parts(length: u8) -> InstructionParts {
    InstructionParts {
        operand_size_override: length == 2 || length == 6 || length == 9,
        rex: None,
        opcode: if length <= 2 {
            seq![0x90u8]
        } else {
            seq![0x0Fu8, 0x1Fu8]
        },
        operand: if length <= 2 {
            Seq::empty()
        } else if length == 3 {
            seq![0x00u8]
        } else if length == 4 {
            seq![0x40u8, 0x00u8]
        } else if length == 5 || length == 6 {
            seq![0x44u8, 0x00u8, 0x00u8]
        } else if length == 7 {
            seq![0x80u8, 0x00u8, 0x00u8, 0x00u8, 0x00u8]
        } else {
            seq![0x84u8, 0x00u8, 0x00u8, 0x00u8, 0x00u8, 0x00u8]
        },
        immediate: Seq::empty(),
    }
}

/// A no-operation sequence is as long as asked for, and in it the prefix
/// stands before the opcode.
pub proof fn lemma_nop_bytes(length: u8)
    requires
        1 <= length <= 9,
    ensures
        nop_bytes(length).len() == length,
        nop_bytes(length) == nop_parts(length).bytes(),
        prefixes_come_first(nop_parts(length)),
{
    assert(nop_bytes(length) =~= nop_parts(length).bytes());
    lemma_prefixes_come_first(nop_parts(length));
}

/// A no-operation instruction of the given length, from one byte to nine.
///
/// `encode_nop_with_length(1)` gives what
/// [`encode_nop`](super::singleton::encode_nop) gives.
pub fn encode_nop_with_length(length: u8) -> (instr: EncodedX86_64Instruction)
    requires
        1 <= length <= 9,
    ensures
        instr@ == nop_bytes(length),
        instr@.len() == length,
{
    let instr = if length == 1 {
        EncodedX86_64Instruction::from_array([0x90])
    } else if length == 2 {
        EncodedX86_64Instruction::from_array([0x66, 0x90])
    } else if length == 3 {
        EncodedX86_64Instruction::from_array([0x0F, 0x1F, 0x00])
    } else if length == 4 {
        EncodedX86_64Instruction::from_array([0x0F, 0x1F, 0x40, 0x00])
    } else if length == 5 {
        EncodedX86_64Instruction::from_array([0x0F, 0x1F, 0x44, 0x00, 0x00])
    } else if length == 6 {
        EncodedX86_64Instruction::from_array([0x66, 0x0F, 0x1F, 0x44, 0x00, 0x00])
    } else if length == 7 {
        EncodedX86_64Instruction::from_array([0x0F, 0x1F, 0x80, 0x00, 0x00, 0x00, 0x00])
    } else if length == 8 {
        EncodedX86_64Instruction::from_array([0x0F, 0x1F, 0x84, 0x00, 0x00, 0x00, 0x00, 0x00])
    } else {
        EncodedX86_64Instruction::from_array(
            [0x66, 0x0F, 0x1F, 0x84, 0x00, 0x00, 0x00, 0x00, 0x00],
        )
    };
    assert(instr@ =~= nop_bytes(length));
    instr
}

} // verus!
