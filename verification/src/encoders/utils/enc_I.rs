//! The class I: an immediate and nothing else.
use vstd::prelude::*;

use super::helpers::{
    lemma_prefixes_come_first, prefixes_come_first, InstructionParts, MAX_OPCODE_SIZE,
    OPERAND_SIZE_OVERRIDE_PREFIX, REX_W,
};
use crate::models::{EncodedX86_64Instruction, Immediate16, Immediate32, Immediate8};

verus! {

/// The parts of an instruction of class I: the opcode and the bytes of the
/// immediate, after the prefixes that the variant asks for.
pub open spec fn i_parts(
    opcode: Seq<u8>,
    immediate: Seq<u8>,
    operand_size_override: bool,
    rex_w: bool,
) -> InstructionParts {
    InstructionParts {
        operand_size_override,
        rex: if rex_w {
            Some(REX_W)
        } else {
            None
        },
        opcode,
        operand: Seq::empty(),
        immediate,
    }
}

/// In an instruction of class I the prefixes stand before the opcode, and
/// the instruction is at most two bytes longer than its opcode and its
/// immediate together.
pub proof fn lemma_i_parts(
    opcode: Seq<u8>,
    immediate: Seq<u8>,
    operand_size_override: bool,
    rex_w: bool,
)
    ensures
        prefixes_come_first(i_parts(opcode, immediate, operand_size_override, rex_w)),
        i_parts(opcode, immediate, operand_size_override, rex_w).bytes().len() <= opcode.len()
            + immediate.len() + 2,
{
    lemma_prefixes_come_first(i_parts(opcode, immediate, operand_size_override, rex_w));
}

/// Encodes an instruction with an 8-bit immediate.
pub fn encode_I_imm8<const T: usize>(opcode: [u8; T], imm8: Immediate8) -> (instr:
    EncodedX86_64Instruction)
    requires
        T <= MAX_OPCODE_SIZE,
    ensures
        instr@ == i_parts(opcode@, imm8.bytes(), false, false).bytes(),
        prefixes_come_first(i_parts(opcode@, imm8.bytes(), false, false)),
        instr@.len() == T + 1,
{
    proof {
        imm8.lemma_bytes_are_twos_complement();
        lemma_i_parts(opcode@, imm8.bytes(), false, false);
    }
    let mut instr = EncodedX86_64Instruction::from_array(opcode);
    instr.push_array(imm8.encode());
    assert(instr@ =~= i_parts(opcode@, imm8.bytes(), false, false).bytes());
    instr
}

/// Encodes an instruction with a 16-bit immediate, after the operand-size
/// override prefix.
pub fn encode_I_imm16_operand_size_override<const T: usize>(
    opcode: [u8; T],
    imm16: Immediate16,
) -> (instr: EncodedX86_64Instruction)
    requires
        T <= MAX_OPCODE_SIZE,
    ensures
        instr@ == i_parts(opcode@, imm16.bytes(), true, false).bytes(),
        prefixes_come_first(i_parts(opcode@, imm16.bytes(), true, false)),
        instr@.len() == T + 3,
{
    proof {
        imm16.lemma_bytes_are_twos_complement();
        lemma_i_parts(opcode@, imm16.bytes(), true, false);
    }
    let mut instr = EncodedX86_64Instruction::from_array([OPERAND_SIZE_OVERRIDE_PREFIX]);
    instr.push_array(opcode);
    instr.push_array(imm16.encode());
    assert(instr@ =~= i_parts(opcode@, imm16.bytes(), true, false).bytes());
    instr
}

/// Encodes an instruction with a 16-bit immediate.
pub fn encode_I_imm16<const T: usize>(opcode: [u8; T], imm16: Immediate16) -> (instr:
    EncodedX86_64Instruction)
    requires
        T <= MAX_OPCODE_SIZE,
    ensures
        instr@ == i_parts(opcode@, imm16.bytes(), false, false).bytes(),
        prefixes_come_first(i_parts(opcode@, imm16.bytes(), false, false)),
        instr@.len() == T + 2,
{
    proof {
        imm16.lemma_bytes_are_twos_complement();
        lemma_i_parts(opcode@, imm16.bytes(), false, false);
    }
    let mut instr = EncodedX86_64Instruction::from_array(opcode);
    instr.push_array(imm16.encode());
    assert(instr@ =~= i_parts(opcode@, imm16.bytes(), false, false).bytes());
    instr
}

/// Encodes an instruction with a 32-bit immediate.
pub fn encode_I_imm32<const T: usize>(opcode: [u8; T], imm32: Immediate32) -> (instr:
    EncodedX86_64Instruction)
    requires
        T <= MAX_OPCODE_SIZE,
    ensures
        instr@ == i_parts(opcode@, imm32.bytes(), false, false).bytes(),
        prefixes_come_first(i_parts(opcode@, imm32.bytes(), false, false)),
        instr@.len() == T + 4,
{
    proof {
        imm32.lemma_bytes_are_twos_complement();
        lemma_i_parts(opcode@, imm32.bytes(), false, false);
    }
    let mut instr = EncodedX86_64Instruction::from_array(opcode);
    instr.push_array(imm32.encode());
    assert(instr@ =~= i_parts(opcode@, imm32.bytes(), false, false).bytes());
    instr
}

/// Encodes an instruction with a 32-bit immediate, after REX.W.
pub fn encode_I_imm32_prefix_rex_w<const T: usize>(opcode: [u8; T], imm32: Immediate32) -> (instr:
    EncodedX86_64Instruction)
    requires
        T <= MAX_OPCODE_SIZE,
    ensures
        instr@ == i_parts(opcode@, imm32.bytes(), false, true).bytes(),
        prefixes_come_first(i_parts(opcode@, imm32.bytes(), false, true)),
        instr@.len() == T + 5,
{
    proof {
        imm32.lemma_bytes_are_twos_complement();
        lemma_i_parts(opcode@, imm32.bytes(), false, true);
    }
    let mut instr = EncodedX86_64Instruction::from_array([REX_W]);
    instr.push_array(opcode);
    instr.push_array(imm32.encode());
    assert(instr@ =~= i_parts(opcode@, imm32.bytes(), false, true).bytes());
    instr
}

} // verus!
