//! The encoders of the variants of `cmp`.
use vstd::prelude::*;

use crate::encoders::utils::enc_I::{
    encode_I_imm16_operand_size_override, encode_I_imm32, encode_I_imm32_prefix_rex_w,
    encode_I_imm8, i_parts,
};
use crate::encoders::utils::enc_MI::{
    encode_MI_rm16_imm16, encode_MI_rm16_imm8, encode_MI_rm32_imm32, encode_MI_rm32_imm8,
    encode_MI_rm64_imm32, encode_MI_rm64_imm8, encode_MI_rm8_imm8, mi_parts,
};
use crate::encoders::utils::enc_MR::{encode_MR, mr_parts};
use crate::encoders::utils::helpers::prefixes_come_first;
use crate::models::{
    EncodedX86_64Instruction, GPR, GPROrMemory, Immediate16, Immediate32, Immediate8, Size,
};

verus! {

/// Compare imm8 with AL.
pub fn encode_cmp_AL_imm8(imm8: Immediate8) -> (instr: EncodedX86_64Instruction)
    ensures
        instr@ == i_parts(seq![0x3Cu8], imm8.bytes(), false, false).bytes(),
        prefixes_come_first(i_parts(seq![0x3Cu8], imm8.bytes(), false, false)),
        instr@.len() <= EncodedX86_64Instruction::MAX_SIZE,
{
    let opcode = [0x3C];
    assert(opcode@ =~= seq![0x3Cu8]);
    encode_I_imm8(opcode, imm8)
}

/// Compare imm16 with AX.
pub fn encode_cmp_AX_imm16(imm16: Immediate16) -> (instr: EncodedX86_64Instruction)
    ensures
        instr@ == i_parts(seq![0x3Du8], imm16.bytes(), true, false).bytes(),
        prefixes_come_first(i_parts(seq![0x3Du8], imm16.bytes(), true, false)),
        instr@.len() <= EncodedX86_64Instruction::MAX_SIZE,
{
    let opcode = [0x3D];
    assert(opcode@ =~= seq![0x3Du8]);
    encode_I_imm16_operand_size_override(opcode, imm16)
}

/// Compare imm32 with EAX.
pub fn encode_cmp_EAX_imm32(imm32: Immediate32) -> (instr: EncodedX86_64Instruction)
    ensures
        instr@ == i_parts(seq![0x3Du8], imm32.bytes(), false, false).bytes(),
        prefixes_come_first(i_parts(seq![0x3Du8], imm32.bytes(), false, false)),
        instr@.len() <= EncodedX86_64Instruction::MAX_SIZE,
{
    let opcode = [0x3D];
    assert(opcode@ =~= seq![0x3Du8]);
    encode_I_imm32(opcode, imm32)
}

/// Compare imm32 sign-extended to 64 bits with RAX.
pub fn encode_cmp_RAX_imm32(imm32: Immediate32) -> (instr: EncodedX86_64Instruction)
    ensures
        instr@ == i_parts(seq![0x3Du8], imm32.bytes(), false, true).bytes(),
        prefixes_come_first(i_parts(seq![0x3Du8], imm32.bytes(), false, true)),
        instr@.len() <= EncodedX86_64Instruction::MAX_SIZE,
{
    let opcode = [0x3D];
    assert(opcode@ =~= seq![0x3Du8]);
    encode_I_imm32_prefix_rex_w(opcode, imm32)
}

/// Compare imm8 with r/m8.
pub fn encode_cmp_rm8_imm8(rm8: GPROrMemory, imm8: Immediate8) -> (instr: EncodedX86_64Instruction)
    requires
        rm8.is_valid_for(Size::Bit8),
    ensures
        instr@ == mi_parts(seq![0x80u8], 7, rm8, imm8.bytes(), Size::Bit8).bytes(),
        prefixes_come_first(mi_parts(seq![0x80u8], 7, rm8, imm8.bytes(), Size::Bit8)),
        instr@.len() <= EncodedX86_64Instruction::MAX_SIZE,
{
    let opcode = [0x80];
    assert(opcode@ =~= seq![0x80u8]);
    encode_MI_rm8_imm8(opcode, 0x07, &rm8, imm8)
}

/// Compare imm16 with r/m16.
pub fn encode_cmp_rm16_imm16(rm16: GPROrMemory, imm16: Immediate16) -> (instr: EncodedX86_64Instruction)
    requires
        rm16.is_valid_for(Size::Bit16),
    ensures
        instr@ == mi_parts(seq![0x81u8], 7, rm16, imm16.bytes(), Size::Bit16).bytes(),
        prefixes_come_first(mi_parts(seq![0x81u8], 7, rm16, imm16.bytes(), Size::Bit16)),
        instr@.len() <= EncodedX86_64Instruction::MAX_SIZE,
{
    let opcode = [0x81];
    assert(opcode@ =~= seq![0x81u8]);
    encode_MI_rm16_imm16(opcode, 0x07, &rm16, imm16)
}

/// Compare imm32 with r/m32.
pub fn encode_cmp_rm32_imm32(rm32: GPROrMemory, imm32: Immediate32) -> (instr: EncodedX86_64Instruction)
    requires
        rm32.is_valid_for(Size::Bit32),
    ensures
        instr@ == mi_parts(seq![0x81u8], 7, rm32, imm32.bytes(), Size::Bit32).bytes(),
        prefixes_come_first(mi_parts(seq![0x81u8], 7, rm32, imm32.bytes(), Size::Bit32)),
        instr@.len() <= EncodedX86_64Instruction::MAX_SIZE,
{
    let opcode = [0x81];
    assert(opcode@ =~= seq![0x81u8]);
    encode_MI_rm32_imm32(opcode, 0x07, &rm32, imm32)
}

/// Compare imm32 sign-extended to 64 bits with r/m64.
pub fn encode_cmp_rm64_imm32(rm64: GPROrMemory, imm32: Immediate32) -> (instr: EncodedX86_64Instruction)
    requires
        rm64.is_valid_for(Size::Bit64),
    ensures
        instr@ == mi_parts(seq![0x81u8], 7, rm64, imm32.bytes(), Size::Bit64).bytes(),
        prefixes_come_first(mi_parts(seq![0x81u8], 7, rm64, imm32.bytes(), Size::Bit64)),
        instr@.len() <= EncodedX86_64Instruction::MAX_SIZE,
{
    let opcode = [0x81];
    assert(opcode@ =~= seq![0x81u8]);
    encode_MI_rm64_imm32(opcode, 0x07, &rm64, imm32)
}

/// Compare sign-extended imm8 with r/m16.
pub fn encode_cmp_rm16_imm8(rm16: GPROrMemory, imm8: Immediate8) -> (instr: EncodedX86_64Instruction)
    requires
        rm16.is_valid_for(Size::Bit16),
    ensures
        instr@ == mi_parts(seq![0x83u8], 7, rm16, imm8.bytes(), Size::Bit16).bytes(),
        prefixes_come_first(mi_parts(seq![0x83u8], 7, rm16, imm8.bytes(), Size::Bit16)),
        instr@.len() <= EncodedX86_64Instruction::MAX_SIZE,
{
    let opcode = [0x83];
    assert(opcode@ =~= seq![0x83u8]);
    encode_MI_rm16_imm8(opcode, 0x07, &rm16, imm8)
}

/// Compare sign-extended imm8 with r/m32.
pub fn encode_cmp_rm32_imm8(rm32: GPROrMemory, imm8: Immediate8) -> (instr: EncodedX86_64Instruction)
    requires
        rm32.is_valid_for(Size::Bit32),
    ensures
        instr@ == mi_parts(seq![0x83u8], 7, rm32, imm8.bytes(), Size::Bit32).bytes(),
        prefixes_come_first(mi_parts(seq![0x83u8], 7, rm32, imm8.bytes(), Size::Bit32)),
        instr@.len() <= EncodedX86_64Instruction::MAX_SIZE,
{
    let opcode = [0x83];
    assert(opcode@ =~= seq![0x83u8]);
    encode_MI_rm32_imm8(opcode, 0x07, &rm32, imm8)
}

/// Compare sign-extended imm8 with r/m64.
pub fn encode_cmp_rm64_imm8(rm64: GPROrMemory, imm8: Immediate8) -> (instr: EncodedX86_64Instruction)
    requires
        rm64.is_valid_for(Size::Bit64),
    ensures
        instr@ == mi_parts(seq![0x83u8], 7, rm64, imm8.bytes(), Size::Bit64).bytes(),
        prefixes_come_first(mi_parts(seq![0x83u8], 7, rm64, imm8.bytes(), Size::Bit64)),
        instr@.len() <= EncodedX86_64Instruction::MAX_SIZE,
{
    let opcode = [0x83];
    assert(opcode@ =~= seq![0x83u8]);
    encode_MI_rm64_imm8(opcode, 0x07, &rm64, imm8)
}

/// Compare r8 with r/m8.
pub fn encode_cmp_rm8_reg8(rm8: GPROrMemory, reg8: GPR) -> (instr: EncodedX86_64Instruction)
    requires
        rm8.is_valid_for(Size::Bit8),
        reg8.spec_size() == Size::Bit8,
    ensures
        instr@ == mr_parts(seq![0x38u8], rm8, reg8).bytes(),
        prefixes_come_first(mr_parts(seq![0x38u8], rm8, reg8)),
        instr@.len() <= EncodedX86_64Instruction::MAX_SIZE,
{
    let opcode = [0x38];
    assert(opcode@ =~= seq![0x38u8]);
    encode_MR(opcode, &rm8, reg8)
}

/// Compare r16 with r/m16.
pub fn encode_cmp_rm16_reg16(rm16: GPROrMemory, reg16: GPR) -> (instr: EncodedX86_64Instruction)
    requires
        rm16.is_valid_for(Size::Bit16),
        reg16.spec_size() == Size::Bit16,
    ensures
        instr@ == mr_parts(seq![0x39u8], rm16, reg16).bytes(),
        prefixes_come_first(mr_parts(seq![0x39u8], rm16, reg16)),
        instr@.len() <= EncodedX86_64Instruction::MAX_SIZE,
{
    let opcode = [0x39];
    assert(opcode@ =~= seq![0x39u8]);
    encode_MR(opcode, &rm16, reg16)
}

/// Compare r32 with r/m32.
pub fn encode_cmp_rm32_reg32(rm32: GPROrMemory, reg32: GPR) -> (instr: EncodedX86_64Instruction)
    requires
        rm32.is_valid_for(Size::Bit32),
        reg32.spec_size() == Size::Bit32,
    ensures
        instr@ == mr_parts(seq![0x39u8], rm32, reg32).bytes(),
        prefixes_come_first(mr_parts(seq![0x39u8], rm32, reg32)),
        instr@.len() <= EncodedX86_64Instruction::MAX_SIZE,
{
    let opcode = [0x39];
    assert(opcode@ =~= seq![0x39u8]);
    encode_MR(opcode, &rm32, reg32)
}

/// Compare r64 with r/m64.
pub fn encode_cmp_rm64_reg64(rm64: GPROrMemory, reg64: GPR) -> (instr: EncodedX86_64Instruction)
    requires
        rm64.is_valid_for(Size::Bit64),
        reg64.spec_size() == Size::Bit64,
    ensures
        instr@ == mr_parts(seq![0x39u8], rm64, reg64).bytes(),
        prefixes_come_first(mr_parts(seq![0x39u8], rm64, reg64)),
        instr@.len() <= EncodedX86_64Instruction::MAX_SIZE,
{
    let opcode = [0x39];
    assert(opcode@ =~= seq![0x39u8]);
    encode_MR(opcode, &rm64, reg64)
}

/// Compare r/m8 with r8.
pub fn encode_cmp_reg8_rm8(reg8: GPR, rm8: GPROrMemory) -> (instr: EncodedX86_64Instruction)
    requires
        rm8.is_valid_for(Size::Bit8),
        reg8.spec_size() == Size::Bit8,
    ensures
        instr@ == mr_parts(seq![0x3Au8], rm8, reg8).bytes(),
        prefixes_come_first(mr_parts(seq![0x3Au8], rm8, reg8)),
        instr@.len() <= EncodedX86_64Instruction::MAX_SIZE,
{
    let opcode = [0x3A];
    assert(opcode@ =~= seq![0x3Au8]);
    encode_MR(opcode, &rm8, reg8)
}

/// Compare r/m16 with r16.
pub fn encode_cmp_reg16_rm16(reg16: GPR, rm16: GPROrMemory) -> (instr: EncodedX86_64Instruction)
    requires
        rm16.is_valid_for(Size::Bit16),
        reg16.spec_size() == Size::Bit16,
    ensures
        instr@ == mr_parts(seq![0x3Bu8], rm16, reg16).bytes(),
        prefixes_come_first(mr_parts(seq![0x3Bu8], rm16, reg16)),
        instr@.len() <= EncodedX86_64Instruction::MAX_SIZE,
{
    let opcode = [0x3B];
    assert(opcode@ =~= seq![0x3Bu8]);
    encode_MR(opcode, &rm16, reg16)
}

/// Compare r/m32 with r32.
pub fn encode_cmp_reg32_rm32(reg32: GPR, rm32: GPROrMemory) -> (instr: EncodedX86_64Instruction)
    requires
        rm32.is_valid_for(Size::Bit32),
        reg32.spec_size() == Size::Bit32,
    ensures
        instr@ == mr_parts(seq![0x3Bu8], rm32, reg32).bytes(),
        prefixes_come_first(mr_parts(seq![0x3Bu8], rm32, reg32)),
        instr@.len() <= EncodedX86_64Instruction::MAX_SIZE,
{
    let opcode = [0x3B];
    assert(opcode@ =~= seq![0x3Bu8]);
    encode_MR(opcode, &rm32, reg32)
}

/// Compare r/m64 with r64.
pub fn encode_cmp_reg64_rm64(reg64: GPR, rm64: GPROrMemory) -> (instr: EncodedX86_64Instruction)
    requires
        rm64.is_valid_for(Size::Bit64),
        reg64.spec_size() == Size::Bit64,
    ensures
        instr@ == mr_parts(seq![0x3Bu8], rm64, reg64).bytes(),
        prefixes_come_first(mr_parts(seq![0x3Bu8], rm64, reg64)),
        instr@.len() <= EncodedX86_64Instruction::MAX_SIZE,
{
    let opcode = [0x3B];
    assert(opcode@ =~= seq![0x3Bu8]);
    encode_MR(opcode, &rm64, reg64)
}

} // verus!
