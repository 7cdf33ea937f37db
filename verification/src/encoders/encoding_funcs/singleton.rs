//! The encoders of the instructions that have one variant only.
use vstd::prelude::*;

use crate::encoders::utils::enc_I::{encode_I_imm8, i_parts};
use crate::encoders::utils::helpers::prefixes_come_first;
use crate::models::{EncodedX86_64Instruction, Immediate8};

verus! {

/// Processor identification and feature information.
pub fn encode_cpuid() -> (instr: EncodedX86_64Instruction)
    ensures
        instr@ == seq![0x0Fu8, 0xA2u8],
        instr@.len() <= EncodedX86_64Instruction::MAX_SIZE,
{
    let instr = EncodedX86_64Instruction::from_array([0x0F, 0xA2]);
    assert(instr@ =~= seq![0x0Fu8, 0xA2u8]);
    instr
}

/// Generate the software interrupt with the vector in imm8.
pub fn encode_int_imm8(imm8: Immediate8) -> (instr: EncodedX86_64Instruction)
    ensures
        instr@ == i_parts(seq![0xCDu8], imm8.bytes(), false, false).bytes(),
        prefixes_come_first(i_parts(seq![0xCDu8], imm8.bytes(), false, false)),
        instr@.len() <= EncodedX86_64Instruction::MAX_SIZE,
{
    let opcode = [0xCD];
    assert(opcode@ =~= seq![0xCDu8]);
    encode_I_imm8(opcode, imm8)
}

/// Generate a debug trap.
pub fn encode_int1() -> (instr: EncodedX86_64Instruction)
    ensures
        instr@ == seq![0xF1u8],
        instr@.len() <= EncodedX86_64Instruction::MAX_SIZE,
{
    let instr = EncodedX86_64Instruction::from_array([0xF1]);
    assert(instr@ =~= seq![0xF1u8]);
    instr
}

/// Generate a breakpoint trap.
pub fn encode_int3() -> (instr: EncodedX86_64Instruction)
    ensures
        instr@ == seq![0xCCu8],
        instr@.len() <= EncodedX86_64Instruction::MAX_SIZE,
{
    let instr = EncodedX86_64Instruction::from_array([0xCC]);
    assert(instr@ =~= seq![0xCCu8]);
    instr
}

/// Assert the LOCK# signal for the duration of the instruction that follows.
pub fn encode_lock() -> (instr: EncodedX86_64Instruction)
    ensures
        instr@ == seq![0xF0u8],
        instr@.len() <= EncodedX86_64Instruction::MAX_SIZE,
{
    let instr = EncodedX86_64Instruction::from_array([0xF0]);
    assert(instr@ =~= seq![0xF0u8]);
    instr
}

/// One-byte no-operation instruction.
pub fn encode_nop() -> (instr: EncodedX86_64Instruction)
    ensures
        instr@ == seq![0x90u8],
        instr@.len() <= EncodedX86_64Instruction::MAX_SIZE,
{
    let instr = EncodedX86_64Instruction::from_array([0x90]);
    assert(instr@ =~= seq![0x90u8]);
    instr
}

} // verus!
