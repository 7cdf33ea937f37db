//! The class O: a register whose number is added to the opcode.
use vstd::prelude::*;

use super::helpers::{
    lemma_prefixes_come_first, prefixes_come_first, InstructionParts,
    OPERAND_SIZE_OVERRIDE_PREFIX, REX_B,
};
use crate::models::{EncodedX86_64Instruction, Size, GPR};

verus! {

/// The parts of an instruction of class O: the opcode plus the three low
/// bits of the register's index, after the operand-size override for a
/// 16-bit register and REX.B for an extended one.
pub open spec fn o_parts(opcode: u8, gpr: GPR) -> InstructionParts {
    InstructionParts {
        operand_size_override: gpr.spec_size() == Size::Bit16,
        rex: if gpr.spec_is_extended() {
            Some(REX_B)
        } else {
            None
        },
        opcode: seq![(opcode + gpr.spec_lower_3_bits_index()) as u8],
        operand: Seq::empty(),
        immediate: Seq::empty(),
    }
}

/// In an instruction of class O the prefixes stand before the opcode, and
/// the instruction is at most three bytes long.
pub proof fn lemma_o_parts(opcode: u8, gpr: GPR)
    ensures
        prefixes_come_first(o_parts(opcode, gpr)),
        o_parts(opcode, gpr).bytes().len() <= 3,
{
    lemma_prefixes_come_first(o_parts(opcode, gpr));
}

/// Encodes an instruction of class O. The register is 16 or 64 bits wide.
pub fn encode_O(opcode: u8, gpr: GPR) -> (instr: EncodedX86_64Instruction)
    requires
        gpr.spec_size() == Size::Bit16 || gpr.spec_size() == Size::Bit64,
        opcode + gpr.spec_lower_3_bits_index() <= u8::MAX,
    ensures
        instr@ == o_parts(opcode, gpr).bytes(),
        prefixes_come_first(o_parts(opcode, gpr)),
        instr@.len() <= 3,
{
    proof {
        lemma_o_parts(opcode, gpr);
    }
    let mut encoded_instruction = EncodedX86_64Instruction::new();
    if gpr.size().equals(Size::Bit16) {
        encoded_instruction.push_array([OPERAND_SIZE_OVERRIDE_PREFIX]);
    }
    if gpr.is_extended() {
        encoded_instruction.push_array([REX_B]);
    }
    encoded_instruction.push_array([opcode + gpr.lower_3_bits_index()]);
    assert(encoded_instruction@ =~= o_parts(opcode, gpr).bytes());
    encoded_instruction
}

} // verus!
