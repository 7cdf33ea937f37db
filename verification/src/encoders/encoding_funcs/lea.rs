//! The encoders of the variants of `lea`.
use vstd::prelude::*;

use crate::encoders::utils::enc_MR::{encode_MR_m, mr_memory_parts};
use crate::encoders::utils::helpers::prefixes_come_first;
use crate::models::{EncodedX86_64Instruction, GPR, Memory, Size};

verus! {

/// Store the effective address of m in r16.
pub fn encode_lea_reg16_m(reg16: GPR, m: Memory) -> (instr: EncodedX86_64Instruction)
    requires
        reg16.spec_size() == Size::Bit16,
        m.is_valid(),
    ensures
        instr@ == mr_memory_parts(seq![0x8Du8], m, reg16).bytes(),
        prefixes_come_first(mr_memory_parts(seq![0x8Du8], m, reg16)),
        instr@.len() <= EncodedX86_64Instruction::MAX_SIZE,
{
    let opcode = [0x8D];
    assert(opcode@ =~= seq![0x8Du8]);
    encode_MR_m(opcode, &m, reg16)
}

/// Store the effective address of m in r32.
pub fn encode_lea_reg32_m(reg32: GPR, m: Memory) -> (instr: EncodedX86_64Instruction)
    requires
        reg32.spec_size() == Size::Bit32,
        m.is_valid(),
    ensures
        instr@ == mr_memory_parts(seq![0x8Du8], m, reg32).bytes(),
        prefixes_come_first(mr_memory_parts(seq![0x8Du8], m, reg32)),
        instr@.len() <= EncodedX86_64Instruction::MAX_SIZE,
{
    let opcode = [0x8D];
    assert(opcode@ =~= seq![0x8Du8]);
    encode_MR_m(opcode, &m, reg32)
}

/// Store the effective address of m in r64.
pub fn encode_lea_reg64_m(reg64: GPR, m: Memory) -> (instr: EncodedX86_64Instruction)
    requires
        reg64.spec_size() == Size::Bit64,
        m.is_valid(),
    ensures
        instr@ == mr_memory_parts(seq![0x8Du8], m, reg64).bytes(),
        prefixes_come_first(mr_memory_parts(seq![0x8Du8], m, reg64)),
        instr@.len() <= EncodedX86_64Instruction::MAX_SIZE,
{
    let opcode = [0x8D];
    assert(opcode@ =~= seq![0x8Du8]);
    encode_MR_m(opcode, &m, reg64)
}

} // verus!
