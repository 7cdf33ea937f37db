//! The encoders of the variants of `pop`.
use vstd::prelude::*;

use crate::encoders::utils::enc_M::{encode_M_gpr_or_memory, m_parts};
use crate::encoders::utils::enc_O::{encode_O, o_parts};
use crate::encoders::utils::helpers::prefixes_come_first;
use crate::models::{EncodedX86_64Instruction, GPR, GPROrMemory, Size};

verus! {

/// Pop the top of the stack into r/m64.
pub fn encode_pop_rm64(rm64: GPROrMemory) -> (instr: EncodedX86_64Instruction)
    requires
        rm64.is_valid_for(Size::Bit64),
    ensures
        instr@ == m_parts(seq![0x8Fu8], 0, rm64, false, false).bytes(),
        prefixes_come_first(m_parts(seq![0x8Fu8], 0, rm64, false, false)),
        instr@.len() <= EncodedX86_64Instruction::MAX_SIZE,
{
    let opcode = [0x8F];
    assert(opcode@ =~= seq![0x8Fu8]);
    encode_M_gpr_or_memory(opcode, 0x00, &rm64, false, false)
}

/// Pop the top of the stack into r64.
pub fn encode_pop_reg64(reg64: GPR) -> (instr: EncodedX86_64Instruction)
    requires
        reg64.spec_size() == Size::Bit64,
    ensures
        instr@ == o_parts(0x58, reg64).bytes(),
        prefixes_come_first(o_parts(0x58, reg64)),
        instr@.len() <= EncodedX86_64Instruction::MAX_SIZE,
{
    encode_O(0x58, reg64)
}

} // verus!
