//! The encoders of the variants of `ret`.
use vstd::prelude::*;

use crate::encoders::utils::enc_I::{encode_I_imm16, i_parts};
use crate::encoders::utils::helpers::prefixes_come_first;
use crate::models::{EncodedX86_64Instruction, Immediate16};

verus! {

/// Near return to the calling procedure.
pub fn encode_ret() -> (instr: EncodedX86_64Instruction)
    ensures
        instr@ == seq![0xC3u8],
        instr@.len() <= EncodedX86_64Instruction::MAX_SIZE,
{
    let instr = EncodedX86_64Instruction::from_array([0xC3]);
    assert(instr@ =~= seq![0xC3u8]);
    instr
}

/// Near return to the calling procedure, popping imm16 bytes from the stack.
pub fn encode_ret_imm16(imm16: Immediate16) -> (instr: EncodedX86_64Instruction)
    ensures
        instr@ == i_parts(seq![0xC2u8], imm16.bytes(), false, false).bytes(),
        prefixes_come_first(i_parts(seq![0xC2u8], imm16.bytes(), false, false)),
        instr@.len() <= EncodedX86_64Instruction::MAX_SIZE,
{
    let opcode = [0xC2];
    assert(opcode@ =~= seq![0xC2u8]);
    encode_I_imm16(opcode, imm16)
}

} // verus!
