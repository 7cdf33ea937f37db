//! The encoders of the variants of `call`.
use vstd::prelude::*;

use crate::encoders::utils::enc_I::{encode_I_imm32, i_parts};
use crate::encoders::utils::enc_M::{encode_M_gpr_or_memory, m_parts};
use crate::encoders::utils::helpers::prefixes_come_first;
use crate::models::{EncodedX86_64Instruction, GPROrMemory, Immediate32, Size};

verus! {

/// Call near, relative to the next instruction.
pub fn encode_call_imm32(imm32: Immediate32) -> (instr: EncodedX86_64Instruction)
    ensures
        instr@ == i_parts(seq![0xE8u8], imm32.bytes(), false, false).bytes(),
        prefixes_come_first(i_parts(seq![0xE8u8], imm32.bytes(), false, false)),
        instr@.len() <= EncodedX86_64Instruction::MAX_SIZE,
{
    let opcode = [0xE8];
    assert(opcode@ =~= seq![0xE8u8]);
    encode_I_imm32(opcode, imm32)
}

/// Call near the address in r/m64.
pub fn encode_call_rm64(rm64: GPROrMemory) -> (instr: EncodedX86_64Instruction)
    requires
        rm64.is_valid_for(Size::Bit64),
    ensures
        instr@ == m_parts(seq![0xFFu8], 2, rm64, false, false).bytes(),
        prefixes_come_first(m_parts(seq![0xFFu8], 2, rm64, false, false)),
        instr@.len() <= EncodedX86_64Instruction::MAX_SIZE,
{
    let opcode = [0xFF];
    assert(opcode@ =~= seq![0xFFu8]);
    encode_M_gpr_or_memory(opcode, 0x02, &rm64, false, false)
}

} // verus!
