//! The encoders of the variants of `jmp`.
use vstd::prelude::*;

use crate::encoders::utils::enc_I::{encode_I_imm32, encode_I_imm8, i_parts};
use crate::encoders::utils::enc_M::{encode_M_gpr_or_memory, m_parts};
use crate::encoders::utils::helpers::prefixes_come_first;
use crate::models::{EncodedX86_64Instruction, GPROrMemory, Immediate32, Immediate8, Size};

verus! {

/// Jump short, relative to the next instruction.
pub fn encode_jmp_imm8(imm8: Immediate8) -> (instr: EncodedX86_64Instruction)
    ensures
        instr@ == i_parts(seq![0xEBu8], imm8.bytes(), false, false).bytes(),
        prefixes_come_first(i_parts(seq![0xEBu8], imm8.bytes(), false, false)),
        instr@.len() <= EncodedX86_64Instruction::MAX_SIZE,
{
    let opcode = [0xEB];
    assert(opcode@ =~= seq![0xEBu8]);
    encode_I_imm8(opcode, imm8)
}

/// Jump near, relative to the next instruction.
pub fn encode_jmp_imm32(imm32: Immediate32) -> (instr: EncodedX86_64Instruction)
    ensures
        instr@ == i_parts(seq![0xE9u8], imm32.bytes(), false, false).bytes(),
        prefixes_come_first(i_parts(seq![0xE9u8], imm32.bytes(), false, false)),
        instr@.len() <= EncodedX86_64Instruction::MAX_SIZE,
{
    let opcode = [0xE9];
    assert(opcode@ =~= seq![0xE9u8]);
    encode_I_imm32(opcode, imm32)
}

/// Jump near to the address in r/m64.
pub fn encode_jmp_rm64(rm64: GPROrMemory) -> (instr: EncodedX86_64Instruction)
    requires
        rm64.is_valid_for(Size::Bit64),
    ensures
        instr@ == m_parts(seq![0xFFu8], 4, rm64, false, false).bytes(),
        prefixes_come_first(m_parts(seq![0xFFu8], 4, rm64, false, false)),
        instr@.len() <= EncodedX86_64Instruction::MAX_SIZE,
{
    let opcode = [0xFF];
    assert(opcode@ =~= seq![0xFFu8]);
    encode_M_gpr_or_memory(opcode, 0x04, &rm64, false, false)
}

} // verus!
