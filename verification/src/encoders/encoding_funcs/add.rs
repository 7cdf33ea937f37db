//! The encoders of the variants of `add`.
use vstd::prelude::*;

use crate::encoders::utils::enc_I::{
    encode_I_imm16_operand_size_override, encode_I_imm32, encode_I_imm32_prefix_rex_w,
    encode_I_imm8, i_parts,
};
use crate::encoders::utils::enc_MI::{encode_MI_rm8_imm8, mi_parts};
use crate::encoders::utils::helpers::prefixes_come_first;
use crate::models::{
    EncodedX86_64Instruction, GPROrMemory, Immediate16, Immediate32, Immediate8, Size,
};

verus! {

/// Add imm8 to AL.
pub fn encode_add_AL_imm8(imm8: Immediate8) -> (instr: EncodedX86_64Instruction)
    ensures
        instr@ == i_parts(seq![0x04u8], imm8.bytes(), false, false).bytes(),
        prefixes_come_first(i_parts(seq![0x04u8], imm8.bytes(), false, false)),
        instr@.len() <= EncodedX86_64Instruction::MAX_SIZE,
{
    let opcode = [0x04];
    assert(opcode@ =~= seq![0x04u8]);
    encode_I_imm8(opcode, imm8)
}

/// Add imm16 to AX.
pub fn encode_add_AX_imm16(imm16: Immediate16) -> (instr: EncodedX86_64Instruction)
    ensures
        instr@ == i_parts(seq![0x05u8], imm16.bytes(), true, false).bytes(),
        prefixes_come_first(i_parts(seq![0x05u8], imm16.bytes(), true, false)),
        instr@.len() <= EncodedX86_64Instruction::MAX_SIZE,
{
    let opcode = [0x05];
    assert(opcode@ =~= seq![0x05u8]);
    encode_I_imm16_operand_size_override(opcode, imm16)
}

/// Add imm32 to EAX.
pub fn encode_add_EAX_imm32(imm32: Immediate32) -> (instr: EncodedX86_64Instruction)
    ensures
        instr@ == i_parts(seq![0x05u8], imm32.bytes(), false, false).bytes(),
        prefixes_come_first(i_parts(seq![0x05u8], imm32.bytes(), false, false)),
        instr@.len() <= EncodedX86_64Instruction::MAX_SIZE,
{
    let opcode = [0x05];
    assert(opcode@ =~= seq![0x05u8]);
    encode_I_imm32(opcode, imm32)
}

/// Add imm32 sign-extended to 64 bits to RAX.
pub fn encode_add_RAX_imm32(imm32: Immediate32) -> (instr: EncodedX86_64Instruction)
    ensures
        instr@ == i_parts(seq![0x05u8], imm32.bytes(), false, true).bytes(),
        prefixes_come_first(i_parts(seq![0x05u8], imm32.bytes(), false, true)),
        instr@.len() <= EncodedX86_64Instruction::MAX_SIZE,
{
    let opcode = [0x05];
    assert(opcode@ =~= seq![0x05u8]);
    encode_I_imm32_prefix_rex_w(opcode, imm32)
}

/// Add imm8 to r/m8.
pub fn encode_add_rm8_imm8(rm8: GPROrMemory, imm8: Immediate8) -> (instr: EncodedX86_64Instruction)
    requires
        rm8.is_valid_for(Size::Bit8),
    ensures
        instr@ == mi_parts(seq![0x80u8], 0, rm8, imm8.bytes(), Size::Bit8).bytes(),
        prefixes_come_first(mi_parts(seq![0x80u8], 0, rm8, imm8.bytes(), Size::Bit8)),
        instr@.len() <= EncodedX86_64Instruction::MAX_SIZE,
{
    let opcode = [0x80];
    assert(opcode@ =~= seq![0x80u8]);
    encode_MI_rm8_imm8(opcode, 0x00, &rm8, imm8)
}

} // verus!
