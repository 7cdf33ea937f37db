//! The encoders of the variants of `jcc`.
use vstd::prelude::*;

use crate::encoders::utils::enc_I::{encode_I_imm32, encode_I_imm8, i_parts};
use crate::encoders::utils::helpers::prefixes_come_first;
use crate::models::{EncodedX86_64Instruction, Immediate32, Immediate8};

verus! {

/// Jump short if above.
pub fn encode_jcc_A_imm8(imm8: Immediate8) -> (instr: EncodedX86_64Instruction)
    ensures
        instr@ == i_parts(seq![0x77u8], imm8.bytes(), false, false).bytes(),
        prefixes_come_first(i_parts(seq![0x77u8], imm8.bytes(), false, false)),
        instr@.len() <= EncodedX86_64Instruction::MAX_SIZE,
{
    let opcode = [0x77];
    assert(opcode@ =~= seq![0x77u8]);
    encode_I_imm8(opcode, imm8)
}

/// Jump short if above or equal.
pub fn encode_jcc_AE_imm8(imm8: Immediate8) -> (instr: EncodedX86_64Instruction)
    ensures
        instr@ == i_parts(seq![0x73u8], imm8.bytes(), false, false).bytes(),
        prefixes_come_first(i_parts(seq![0x73u8], imm8.bytes(), false, false)),
        instr@.len() <= EncodedX86_64Instruction::MAX_SIZE,
{
    let opcode = [0x73];
    assert(opcode@ =~= seq![0x73u8]);
    encode_I_imm8(opcode, imm8)
}

/// Jump short if below.
pub fn encode_jcc_B_imm8(imm8: Immediate8) -> (instr: EncodedX86_64Instruction)
    ensures
        instr@ == i_parts(seq![0x72u8], imm8.bytes(), false, false).bytes(),
        prefixes_come_first(i_parts(seq![0x72u8], imm8.bytes(), false, false)),
        instr@.len() <= EncodedX86_64Instruction::MAX_SIZE,
{
    let opcode = [0x72];
    assert(opcode@ =~= seq![0x72u8]);
    encode_I_imm8(opcode, imm8)
}

/// Jump short if below or equal.
pub fn encode_jcc_BE_imm8(imm8: Immediate8) -> (instr: EncodedX86_64Instruction)
    ensures
        instr@ == i_parts(seq![0x76u8], imm8.bytes(), false, false).bytes(),
        prefixes_come_first(i_parts(seq![0x76u8], imm8.bytes(), false, false)),
        instr@.len() <= EncodedX86_64Instruction::MAX_SIZE,
{
    let opcode = [0x76];
    assert(opcode@ =~= seq![0x76u8]);
    encode_I_imm8(opcode, imm8)
}

/// Jump short if equal.
pub fn encode_jcc_E_imm8(imm8: Immediate8) -> (instr: EncodedX86_64Instruction)
    ensures
        instr@ == i_parts(seq![0x74u8], imm8.bytes(), false, false).bytes(),
        prefixes_come_first(i_parts(seq![0x74u8], imm8.bytes(), false, false)),
        instr@.len() <= EncodedX86_64Instruction::MAX_SIZE,
{
    let opcode = [0x74];
    assert(opcode@ =~= seq![0x74u8]);
    encode_I_imm8(opcode, imm8)
}

/// Jump short if greater.
pub fn encode_jcc_G_imm8(imm8: Immediate8) -> (instr: EncodedX86_64Instruction)
    ensures
        instr@ == i_parts(seq![0x7Fu8], imm8.bytes(), false, false).bytes(),
        prefixes_come_first(i_parts(seq![0x7Fu8], imm8.bytes(), false, false)),
        instr@.len() <= EncodedX86_64Instruction::MAX_SIZE,
{
    let opcode = [0x7F];
    assert(opcode@ =~= seq![0x7Fu8]);
    encode_I_imm8(opcode, imm8)
}

/// Jump short if greater or equal.
pub fn encode_jcc_GE_imm8(imm8: Immediate8) -> (instr: EncodedX86_64Instruction)
    ensures
        instr@ == i_parts(seq![0x7Du8], imm8.bytes(), false, false).bytes(),
        prefixes_come_first(i_parts(seq![0x7Du8], imm8.bytes(), false, false)),
        instr@.len() <= EncodedX86_64Instruction::MAX_SIZE,
{
    let opcode = [0x7D];
    assert(opcode@ =~= seq![0x7Du8]);
    encode_I_imm8(opcode, imm8)
}

/// Jump short if less.
pub fn encode_jcc_L_imm8(imm8: Immediate8) -> (instr: EncodedX86_64Instruction)
    ensures
        instr@ == i_parts(seq![0x7Cu8], imm8.bytes(), false, false).bytes(),
        prefixes_come_first(i_parts(seq![0x7Cu8], imm8.bytes(), false, false)),
        instr@.len() <= EncodedX86_64Instruction::MAX_SIZE,
{
    let opcode = [0x7C];
    assert(opcode@ =~= seq![0x7Cu8]);
    encode_I_imm8(opcode, imm8)
}

/// Jump short if less or equal.
pub fn encode_jcc_LE_imm8(imm8: Immediate8) -> (instr: EncodedX86_64Instruction)
    ensures
        instr@ == i_parts(seq![0x7Eu8], imm8.bytes(), false, false).bytes(),
        prefixes_come_first(i_parts(seq![0x7Eu8], imm8.bytes(), false, false)),
        instr@.len() <= EncodedX86_64Instruction::MAX_SIZE,
{
    let opcode = [0x7E];
    assert(opcode@ =~= seq![0x7Eu8]);
    encode_I_imm8(opcode, imm8)
}

/// Jump short if not equal.
pub fn encode_jcc_NE_imm8(imm8: Immediate8) -> (instr: EncodedX86_64Instruction)
    ensures
        instr@ == i_parts(seq![0x75u8], imm8.bytes(), false, false).bytes(),
        prefixes_come_first(i_parts(seq![0x75u8], imm8.bytes(), false, false)),
        instr@.len() <= EncodedX86_64Instruction::MAX_SIZE,
{
    let opcode = [0x75];
    assert(opcode@ =~= seq![0x75u8]);
    encode_I_imm8(opcode, imm8)
}

/// Jump short if not overflow.
pub fn encode_jcc_NO_imm8(imm8: Immediate8) -> (instr: EncodedX86_64Instruction)
    ensures
        instr@ == i_parts(seq![0x71u8], imm8.bytes(), false, false).bytes(),
        prefixes_come_first(i_parts(seq![0x71u8], imm8.bytes(), false, false)),
        instr@.len() <= EncodedX86_64Instruction::MAX_SIZE,
{
    let opcode = [0x71];
    assert(opcode@ =~= seq![0x71u8]);
    encode_I_imm8(opcode, imm8)
}

/// Jump short if not parity.
pub fn encode_jcc_NP_imm8(imm8: Immediate8) -> (instr: EncodedX86_64Instruction)
    ensures
        instr@ == i_parts(seq![0x7Bu8], imm8.bytes(), false, false).bytes(),
        prefixes_come_first(i_parts(seq![0x7Bu8], imm8.bytes(), false, false)),
        instr@.len() <= EncodedX86_64Instruction::MAX_SIZE,
{
    let opcode = [0x7B];
    assert(opcode@ =~= seq![0x7Bu8]);
    encode_I_imm8(opcode, imm8)
}

/// Jump short if not sign.
pub fn encode_jcc_NS_imm8(imm8: Immediate8) -> (instr: EncodedX86_64Instruction)
    ensures
        instr@ == i_parts(seq![0x79u8], imm8.bytes(), false, false).bytes(),
        prefixes_come_first(i_parts(seq![0x79u8], imm8.bytes(), false, false)),
        instr@.len() <= EncodedX86_64Instruction::MAX_SIZE,
{
    let opcode = [0x79];
    assert(opcode@ =~= seq![0x79u8]);
    encode_I_imm8(opcode, imm8)
}

/// Jump short if overflow.
pub fn encode_jcc_O_imm8(imm8: Immediate8) -> (instr: EncodedX86_64Instruction)
    ensures
        instr@ == i_parts(seq![0x70u8], imm8.bytes(), false, false).bytes(),
        prefixes_come_first(i_parts(seq![0x70u8], imm8.bytes(), false, false)),
        instr@.len() <= EncodedX86_64Instruction::MAX_SIZE,
{
    let opcode = [0x70];
    assert(opcode@ =~= seq![0x70u8]);
    encode_I_imm8(opcode, imm8)
}

/// Jump short if parity.
pub fn encode_jcc_P_imm8(imm8: Immediate8) -> (instr: EncodedX86_64Instruction)
    ensures
        instr@ == i_parts(seq![0x7Au8], imm8.bytes(), false, false).bytes(),
        prefixes_come_first(i_parts(seq![0x7Au8], imm8.bytes(), false, false)),
        instr@.len() <= EncodedX86_64Instruction::MAX_SIZE,
{
    let opcode = [0x7A];
    assert(opcode@ =~= seq![0x7Au8]);
    encode_I_imm8(opcode, imm8)
}

/// Jump short if sign.
pub fn encode_jcc_S_imm8(imm8: Immediate8) -> (instr: EncodedX86_64Instruction)
    ensures
        instr@ == i_parts(seq![0x78u8], imm8.bytes(), false, false).bytes(),
        prefixes_come_first(i_parts(seq![0x78u8], imm8.bytes(), false, false)),
        instr@.len() <= EncodedX86_64Instruction::MAX_SIZE,
{
    let opcode = [0x78];
    assert(opcode@ =~= seq![0x78u8]);
    encode_I_imm8(opcode, imm8)
}

/// Jump near if above.
pub fn encode_jcc_A_imm32(imm32: Immediate32) -> (instr: EncodedX86_64Instruction)
    ensures
        instr@ == i_parts(seq![0x0Fu8, 0x87u8], imm32.bytes(), false, false).bytes(),
        prefixes_come_first(i_parts(seq![0x0Fu8, 0x87u8], imm32.bytes(), false, false)),
        instr@.len() <= EncodedX86_64Instruction::MAX_SIZE,
{
    let opcode = [0x0F, 0x87];
    assert(opcode@ =~= seq![0x0Fu8, 0x87u8]);
    encode_I_imm32(opcode, imm32)
}

/// Jump near if above or equal.
pub fn encode_jcc_AE_imm32(imm32: Immediate32) -> (instr: EncodedX86_64Instruction)
    ensures
        instr@ == i_parts(seq![0x0Fu8, 0x83u8], imm32.bytes(), false, false).bytes(),
        prefixes_come_first(i_parts(seq![0x0Fu8, 0x83u8], imm32.bytes(), false, false)),
        instr@.len() <= EncodedX86_64Instruction::MAX_SIZE,
{
    let opcode = [0x0F, 0x83];
    assert(opcode@ =~= seq![0x0Fu8, 0x83u8]);
    encode_I_imm32(opcode, imm32)
}

/// Jump near if below.
pub fn encode_jcc_B_imm32(imm32: Immediate32) -> (instr: EncodedX86_64Instruction)
    ensures
        instr@ == i_parts(seq![0x0Fu8, 0x82u8], imm32.bytes(), false, false).bytes(),
        prefixes_come_first(i_parts(seq![0x0Fu8, 0x82u8], imm32.bytes(), false, false)),
        instr@.len() <= EncodedX86_64Instruction::MAX_SIZE,
{
    let opcode = [0x0F, 0x82];
    assert(opcode@ =~= seq![0x0Fu8, 0x82u8]);
    encode_I_imm32(opcode, imm32)
}

/// Jump near if below or equal.
pub fn encode_jcc_BE_imm32(imm32: Immediate32) -> (instr: EncodedX86_64Instruction)
    ensures
        instr@ == i_parts(seq![0x0Fu8, 0x86u8], imm32.bytes(), false, false).bytes(),
        prefixes_come_first(i_parts(seq![0x0Fu8, 0x86u8], imm32.bytes(), false, false)),
        instr@.len() <= EncodedX86_64Instruction::MAX_SIZE,
{
    let opcode = [0x0F, 0x86];
    assert(opcode@ =~= seq![0x0Fu8, 0x86u8]);
    encode_I_imm32(opcode, imm32)
}

/// Jump near if equal.
pub fn encode_jcc_E_imm32(imm32: Immediate32) -> (instr: EncodedX86_64Instruction)
    ensures
        instr@ == i_parts(seq![0x0Fu8, 0x84u8], imm32.bytes(), false, false).bytes(),
        prefixes_come_first(i_parts(seq![0x0Fu8, 0x84u8], imm32.bytes(), false, false)),
        instr@.len() <= EncodedX86_64Instruction::MAX_SIZE,
{
    let opcode = [0x0F, 0x84];
    assert(opcode@ =~= seq![0x0Fu8, 0x84u8]);
    encode_I_imm32(opcode, imm32)
}

/// Jump near if greater.
pub fn encode_jcc_G_imm32(imm32: Immediate32) -> (instr: EncodedX86_64Instruction)
    ensures
        instr@ == i_parts(seq![0x0Fu8, 0x8Fu8], imm32.bytes(), false, false).bytes(),
        prefixes_come_first(i_parts(seq![0x0Fu8, 0x8Fu8], imm32.bytes(), false, false)),
        instr@.len() <= EncodedX86_64Instruction::MAX_SIZE,
{
    let opcode = [0x0F, 0x8F];
    assert(opcode@ =~= seq![0x0Fu8, 0x8Fu8]);
    encode_I_imm32(opcode, imm32)
}

/// Jump near if greater or equal.
pub fn encode_jcc_GE_imm32(imm32: Immediate32) -> (instr: EncodedX86_64Instruction)
    ensures
        instr@ == i_parts(seq![0x0Fu8, 0x8Du8], imm32.bytes(), false, false).bytes(),
        prefixes_come_first(i_parts(seq![0x0Fu8, 0x8Du8], imm32.bytes(), false, false)),
        instr@.len() <= EncodedX86_64Instruction::MAX_SIZE,
{
    let opcode = [0x0F, 0x8D];
    assert(opcode@ =~= seq![0x0Fu8, 0x8Du8]);
    encode_I_imm32(opcode, imm32)
}

/// Jump near if less.
pub fn encode_jcc_L_imm32(imm32: Immediate32) -> (instr: EncodedX86_64Instruction)
    ensures
        instr@ == i_parts(seq![0x0Fu8, 0x8Cu8], imm32.bytes(), false, false).bytes(),
        prefixes_come_first(i_parts(seq![0x0Fu8, 0x8Cu8], imm32.bytes(), false, false)),
        instr@.len() <= EncodedX86_64Instruction::MAX_SIZE,
{
    let opcode = [0x0F, 0x8C];
    assert(opcode@ =~= seq![0x0Fu8, 0x8Cu8]);
    encode_I_imm32(opcode, imm32)
}

/// Jump near if less or equal.
pub fn encode_jcc_LE_imm32(imm32: Immediate32) -> (instr: EncodedX86_64Instruction)
    ensures
        instr@ == i_parts(seq![0x0Fu8, 0x8Eu8], imm32.bytes(), false, false).bytes(),
        prefixes_come_first(i_parts(seq![0x0Fu8, 0x8Eu8], imm32.bytes(), false, false)),
        instr@.len() <= EncodedX86_64Instruction::MAX_SIZE,
{
    let opcode = [0x0F, 0x8E];
    assert(opcode@ =~= seq![0x0Fu8, 0x8Eu8]);
    encode_I_imm32(opcode, imm32)
}

/// Jump near if not equal.
pub fn encode_jcc_NE_imm32(imm32: Immediate32) -> (instr: EncodedX86_64Instruction)
    ensures
        instr@ == i_parts(seq![0x0Fu8, 0x85u8], imm32.bytes(), false, false).bytes(),
        prefixes_come_first(i_parts(seq![0x0Fu8, 0x85u8], imm32.bytes(), false, false)),
        instr@.len() <= EncodedX86_64Instruction::MAX_SIZE,
{
    let opcode = [0x0F, 0x85];
    assert(opcode@ =~= seq![0x0Fu8, 0x85u8]);
    encode_I_imm32(opcode, imm32)
}

/// Jump near if not overflow.
pub fn encode_jcc_NO_imm32(imm32: Immediate32) -> (instr: EncodedX86_64Instruction)
    ensures
        instr@ == i_parts(seq![0x0Fu8, 0x81u8], imm32.bytes(), false, false).bytes(),
        prefixes_come_first(i_parts(seq![0x0Fu8, 0x81u8], imm32.bytes(), false, false)),
        instr@.len() <= EncodedX86_64Instruction::MAX_SIZE,
{
    let opcode = [0x0F, 0x81];
    assert(opcode@ =~= seq![0x0Fu8, 0x81u8]);
    encode_I_imm32(opcode, imm32)
}

/// Jump near if not parity.
pub fn encode_jcc_NP_imm32(imm32: Immediate32) -> (instr: EncodedX86_64Instruction)
    ensures
        instr@ == i_parts(seq![0x0Fu8, 0x8Bu8], imm32.bytes(), false, false).bytes(),
        prefixes_come_first(i_parts(seq![0x0Fu8, 0x8Bu8], imm32.bytes(), false, false)),
        instr@.len() <= EncodedX86_64Instruction::MAX_SIZE,
{
    let opcode = [0x0F, 0x8B];
    assert(opcode@ =~= seq![0x0Fu8, 0x8Bu8]);
    encode_I_imm32(opcode, imm32)
}

/// Jump near if not sign.
pub fn encode_jcc_NS_imm32(imm32: Immediate32) -> (instr: EncodedX86_64Instruction)
    ensures
        instr@ == i_parts(seq![0x0Fu8, 0x89u8], imm32.bytes(), false, false).bytes(),
        prefixes_come_first(i_parts(seq![0x0Fu8, 0x89u8], imm32.bytes(), false, false)),
        instr@.len() <= EncodedX86_64Instruction::MAX_SIZE,
{
    let opcode = [0x0F, 0x89];
    assert(opcode@ =~= seq![0x0Fu8, 0x89u8]);
    encode_I_imm32(opcode, imm32)
}

/// Jump near if overflow.
pub fn encode_jcc_O_imm32(imm32: Immediate32) -> (instr: EncodedX86_64Instruction)
    ensures
        instr@ == i_parts(seq![0x0Fu8, 0x80u8], imm32.bytes(), false, false).bytes(),
        prefixes_come_first(i_parts(seq![0x0Fu8, 0x80u8], imm32.bytes(), false, false)),
        instr@.len() <= EncodedX86_64Instruction::MAX_SIZE,
{
    let opcode = [0x0F, 0x80];
    assert(opcode@ =~= seq![0x0Fu8, 0x80u8]);
    encode_I_imm32(opcode, imm32)
}

/// Jump near if parity.
pub fn encode_jcc_P_imm32(imm32: Immediate32) -> (instr: EncodedX86_64Instruction)
    ensures
        instr@ == i_parts(seq![0x0Fu8, 0x8Au8], imm32.bytes(), false, false).bytes(),
        prefixes_come_first(i_parts(seq![0x0Fu8, 0x8Au8], imm32.bytes(), false, false)),
        instr@.len() <= EncodedX86_64Instruction::MAX_SIZE,
{
    let opcode = [0x0F, 0x8A];
    assert(opcode@ =~= seq![0x0Fu8, 0x8Au8]);
    encode_I_imm32(opcode, imm32)
}

/// Jump near if sign.
pub fn encode_jcc_S_imm32(imm32: Immediate32) -> (instr: EncodedX86_64Instruction)
    ensures
        instr@ == i_parts(seq![0x0Fu8, 0x88u8], imm32.bytes(), false, false).bytes(),
        prefixes_come_first(i_parts(seq![0x0Fu8, 0x88u8], imm32.bytes(), false, false)),
        instr@.len() <= EncodedX86_64Instruction::MAX_SIZE,
{
    let opcode = [0x0F, 0x88];
    assert(opcode@ =~= seq![0x0Fu8, 0x88u8]);
    encode_I_imm32(opcode, imm32)
}

} // verus!
