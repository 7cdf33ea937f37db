//! The class OI: a register whose number is added to the opcode, and an
//! immediate as wide as the register.
use vstd::prelude::*;

use super::helpers::{
    lemma_prefixes_come_first, lemma_rex_prefix_is_rex, prefixes_come_first, rex_prefix,
    spec_rex_prefix, InstructionParts, OPERAND_SIZE_OVERRIDE_PREFIX,
};
use crate::models::{
    EncodedX86_64Instruction, GPRKind, Immediate16, Immediate32, Immediate64, Immediate8, Size,
    GPR,
};

verus! {

/// The parts of an instruction of class OI: the opcode plus the three low
/// bits of the register's index, then the immediate.
///
/// The operand-size override stands before a 16-bit register. REX carries W
/// for a 64-bit register and B for an extended one, and stands bare where
/// only that tells the register from AH, CH, DH or BH.
pub open spec fn oi_parts(opcode: u8, gpr: GPR, immediate: Seq<u8>) -> InstructionParts {
    InstructionParts {
        operand_size_override: gpr.spec_size() == Size::Bit16,
        rex: spec_rex_prefix(
            gpr.spec_size() == Size::Bit64,
            false,
            false,
            gpr.spec_is_extended(),
            gpr.needs_rex(),
        ),
        opcode: seq![(opcode + gpr.spec_lower_3_bits_index()) as u8],
        operand: Seq::empty(),
        immediate,
    }
}

/// In an instruction of class OI the prefixes stand before the opcode, and
/// the instruction is at most three bytes longer than its immediate.
pub proof fn lemma_oi_parts(opcode: u8, gpr: GPR, immediate: Seq<u8>)
    ensures
        prefixes_come_first(oi_parts(opcode, gpr, immediate)),
        oi_parts(opcode, gpr, immediate).bytes().len() <= immediate.len() + 3,
{
    lemma_rex_prefix_is_rex(
        gpr.spec_size() == Size::Bit64,
        false,
        false,
        gpr.spec_is_extended(),
        gpr.needs_rex(),
    );
    lemma_prefixes_come_first(oi_parts(opcode, gpr, immediate));
}

/// Encodes an instruction with an 8-bit register and an immediate as wide.
pub fn encode_OI_r8_imm8(opcode: u8, gpr: GPR, imm8: Immediate8) -> (instr:
    EncodedX86_64Instruction)
    requires
        gpr.spec_size() == Size::Bit8,
        opcode + gpr.spec_lower_3_bits_index() <= u8::MAX,
    ensures
        instr@ == oi_parts(opcode, gpr, imm8.bytes()).bytes(),
        prefixes_come_first(oi_parts(opcode, gpr, imm8.bytes())),
        instr@.len() <= 3,
{
    proof {
        imm8.lemma_bytes_are_twos_complement();
        lemma_oi_parts(opcode, gpr, imm8.bytes());
    }
    let mut encoded_instruction = EncodedX86_64Instruction::new();
    let rex = rex_prefix(
        false,
        false,
        false,
        gpr.is_extended(),
        gpr.index_matches_bit8_high() && gpr.kind().equals(GPRKind::Bit8),
    );
    if let Some(rex) = rex {
        encoded_instruction.push_array([rex]);
    }
    let opcode_byte = opcode + gpr.lower_3_bits_index();
    encoded_instruction.push_array([opcode_byte]);
    encoded_instruction.push_array(imm8.encode());
    assert(encoded_instruction@ =~= oi_parts(opcode, gpr, imm8.bytes()).bytes());
    encoded_instruction
}

/// Encodes an instruction with a 16-bit register and an immediate as wide.
pub fn encode_OI_r16_imm16(opcode: u8, gpr: GPR, imm16: Immediate16) -> (instr:
    EncodedX86_64Instruction)
    requires
        gpr.spec_size() == Size::Bit16,
        opcode + gpr.spec_lower_3_bits_index() <= u8::MAX,
    ensures
        instr@ == oi_parts(opcode, gpr, imm16.bytes()).bytes(),
        prefixes_come_first(oi_parts(opcode, gpr, imm16.bytes())),
        instr@.len() <= 5,
{
    proof {
        imm16.lemma_bytes_are_twos_complement();
        lemma_oi_parts(opcode, gpr, imm16.bytes());
    }
    let mut encoded_instruction = EncodedX86_64Instruction::from_array(
        [OPERAND_SIZE_OVERRIDE_PREFIX],
    );
    let rex = rex_prefix(false, false, false, gpr.is_extended(), false);
    if let Some(rex) = rex {
        encoded_instruction.push_array([rex]);
    }
    let opcode_byte = opcode + gpr.lower_3_bits_index();
    encoded_instruction.push_array([opcode_byte]);
    encoded_instruction.push_array(imm16.encode());
    assert(encoded_instruction@ =~= oi_parts(opcode, gpr, imm16.bytes()).bytes());
    encoded_instruction
}

/// Encodes an instruction with a 32-bit register and an immediate as wide.
pub fn encode_OI_r32_imm32(opcode: u8, gpr: GPR, imm32: Immediate32) -> (instr:
    EncodedX86_64Instruction)
    requires
        gpr.spec_size() == Size::Bit32,
        opcode + gpr.spec_lower_3_bits_index() <= u8::MAX,
    ensures
        instr@ == oi_parts(opcode, gpr, imm32.bytes()).bytes(),
        prefixes_come_first(oi_parts(opcode, gpr, imm32.bytes())),
        instr@.len() <= 6,
{
    proof {
        imm32.lemma_bytes_are_twos_complement();
        lemma_oi_parts(opcode, gpr, imm32.bytes());
    }
    let mut encoded_instruction = EncodedX86_64Instruction::new();
    let rex = rex_prefix(false, false, false, gpr.is_extended(), false);
    if let Some(rex) = rex {
        encoded_instruction.push_array([rex]);
    }
    let opcode_byte = opcode + gpr.lower_3_bits_index();
    encoded_instruction.push_array([opcode_byte]);
    encoded_instruction.push_array(imm32.encode());
    assert(encoded_instruction@ =~= oi_parts(opcode, gpr, imm32.bytes()).bytes());
    encoded_instruction
}

/// Encodes an instruction with a 64-bit register and an immediate as wide.
pub fn encode_OI_r64_imm64(opcode: u8, gpr: GPR, imm64: Immediate64) -> (instr:
    EncodedX86_64Instruction)
    requires
        gpr.spec_size() == Size::Bit64,
        opcode + gpr.spec_lower_3_bits_index() <= u8::MAX,
    ensures
        instr@ == oi_parts(opcode, gpr, imm64.bytes()).bytes(),
        prefixes_come_first(oi_parts(opcode, gpr, imm64.bytes())),
        instr@.len() == 10,
{
    proof {
        imm64.lemma_bytes_are_twos_complement();
        lemma_oi_parts(opcode, gpr, imm64.bytes());
    }
    let mut encoded_instruction = EncodedX86_64Instruction::new();
    let rex = rex_prefix(true, false, false, gpr.is_extended(), false);
    if let Some(rex) = rex {
        encoded_instruction.push_array([rex]);
    }
    let opcode_byte = opcode + gpr.lower_3_bits_index();
    encoded_instruction.push_array([opcode_byte]);
    encoded_instruction.push_array(imm64.encode());
    assert(encoded_instruction@ =~= oi_parts(opcode, gpr, imm64.bytes()).bytes());
    encoded_instruction
}

} // verus!
