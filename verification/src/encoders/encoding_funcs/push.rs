//! The encoders of the variants of `push`.
use vstd::prelude::*;

use crate::encoders::utils::enc_I::{
    encode_I_imm16_operand_size_override, encode_I_imm32, encode_I_imm8, i_parts,
};
use crate::encoders::utils::enc_M::{encode_M_gpr_or_memory, m_parts};
use crate::encoders::utils::enc_O::{encode_O, o_parts};
use crate::encoders::utils::helpers::prefixes_come_first;
use crate::models::{
    EncodedX86_64Instruction, GPR, GPROrMemory, Immediate16, Immediate32, Immediate8, Size,
};

verus! {

/// Push r/m64.
pub fn encode_push_rm64(rm64: GPROrMemory) -> (instr: EncodedX86_64Instruction)
    requires
        rm64.is_valid_for(Size::Bit64),
    ensures
        instr@ == m_parts(seq![0xFFu8], 6, rm64, false, false).bytes(),
        prefixes_come_first(m_parts(seq![0xFFu8], 6, rm64, false, false)),
        instr@.len() <= EncodedX86_64Instruction::MAX_SIZE,
{
    let opcode = [0xFF];
    assert(opcode@ =~= seq![0xFFu8]);
    encode_M_gpr_or_memory(opcode, 0x06, &rm64, false, false)
}

/// Push r64.
pub fn encode_push_reg64(reg64: GPR) -> (instr: EncodedX86_64Instruction)
    requires
        reg64.spec_size() == Size::Bit64,
    ensures
        instr@ == o_parts(0x50, reg64).bytes(),
        prefixes_come_first(o_parts(0x50, reg64)),
        instr@.len() <= EncodedX86_64Instruction::MAX_SIZE,
{
    encode_O(0x50, reg64)
}

/// Push imm8.
pub fn encode_push_imm8(imm8: Immediate8) -> (instr: EncodedX86_64Instruction)
    ensures
        instr@ == i_parts(seq![0x6Au8], imm8.bytes(), false, false).bytes(),
        prefixes_come_first(i_parts(seq![0x6Au8], imm8.bytes(), false, false)),
        instr@.len() <= EncodedX86_64Instruction::MAX_SIZE,
{
    let opcode = [0x6A];
    assert(opcode@ =~= seq![0x6Au8]);
    encode_I_imm8(opcode, imm8)
}

/// Push imm16.
pub fn encode_push_imm16(imm16: Immediate16) -> (instr: EncodedX86_64Instruction)
    ensures
        instr@ == i_parts(seq![0x68u8], imm16.bytes(), true, false).bytes(),
        prefixes_come_first(i_parts(seq![0x68u8], imm16.bytes(), true, false)),
        instr@.len() <= EncodedX86_64Instruction::MAX_SIZE,
{
    let opcode = [0x68];
    assert(opcode@ =~= seq![0x68u8]);
    encode_I_imm16_operand_size_override(opcode, imm16)
}

/// Push imm32.
pub fn encode_push_imm32(imm32: Immediate32) -> (instr: EncodedX86_64Instruction)
    ensures
        instr@ == i_parts(seq![0x68u8], imm32.bytes(), false, false).bytes(),
        prefixes_come_first(i_parts(seq![0x68u8], imm32.bytes(), false, false)),
        instr@.len() <= EncodedX86_64Instruction::MAX_SIZE,
{
    let opcode = [0x68];
    assert(opcode@ =~= seq![0x68u8]);
    encode_I_imm32(opcode, imm32)
}

} // verus!
