//! The encoders of the variants of `mov`.
use vstd::prelude::*;

use crate::encoders::utils::enc_MI::{
    encode_MI_rm16_imm16, encode_MI_rm32_imm32, encode_MI_rm64_imm32, encode_MI_rm8_imm8, mi_parts,
};
use crate::encoders::utils::enc_MR::{encode_MR, mr_parts};
use crate::encoders::utils::enc_OI::{
    encode_OI_r16_imm16, encode_OI_r32_imm32, encode_OI_r64_imm64, encode_OI_r8_imm8, oi_parts,
};
use crate::encoders::utils::helpers::prefixes_come_first;
use crate::models::{
    EncodedX86_64Instruction, GPR, GPROrMemory, Immediate16, Immediate32, Immediate64, Immediate8,
    Size,
};

verus! {

/// Move imm8 to r/m8.
pub fn encode_mov_rm8_imm8(rm8: GPROrMemory, imm8: Immediate8) -> (instr: EncodedX86_64Instruction)
    requires
        rm8.is_valid_for(Size::Bit8),
    ensures
        instr@ == mi_parts(seq![0xC6u8], 0, rm8, imm8.bytes(), Size::Bit8).bytes(),
        prefixes_come_first(mi_parts(seq![0xC6u8], 0, rm8, imm8.bytes(), Size::Bit8)),
        instr@.len() <= EncodedX86_64Instruction::MAX_SIZE,
{
    let opcode = [0xC6];
    assert(opcode@ =~= seq![0xC6u8]);
    encode_MI_rm8_imm8(opcode, 0x00, &rm8, imm8)
}

/// Move imm16 to r/m16.
pub fn encode_mov_rm16_imm16(rm16: GPROrMemory, imm16: Immediate16) -> (instr: EncodedX86_64Instruction)
    requires
        rm16.is_valid_for(Size::Bit16),
    ensures
        instr@ == mi_parts(seq![0xC7u8], 0, rm16, imm16.bytes(), Size::Bit16).bytes(),
        prefixes_come_first(mi_parts(seq![0xC7u8], 0, rm16, imm16.bytes(), Size::Bit16)),
        instr@.len() <= EncodedX86_64Instruction::MAX_SIZE,
{
    let opcode = [0xC7];
    assert(opcode@ =~= seq![0xC7u8]);
    encode_MI_rm16_imm16(opcode, 0x00, &rm16, imm16)
}

/// Move imm32 to r/m32.
pub fn encode_mov_rm32_imm32(rm32: GPROrMemory, imm32: Immediate32) -> (instr: EncodedX86_64Instruction)
    requires
        rm32.is_valid_for(Size::Bit32),
    ensures
        instr@ == mi_parts(seq![0xC7u8], 0, rm32, imm32.bytes(), Size::Bit32).bytes(),
        prefixes_come_first(mi_parts(seq![0xC7u8], 0, rm32, imm32.bytes(), Size::Bit32)),
        instr@.len() <= EncodedX86_64Instruction::MAX_SIZE,
{
    let opcode = [0xC7];
    assert(opcode@ =~= seq![0xC7u8]);
    encode_MI_rm32_imm32(opcode, 0x00, &rm32, imm32)
}

/// Move imm32 sign-extended to 64 bits to r/m64.
pub fn encode_mov_rm64_imm32(rm64: GPROrMemory, imm32: Immediate32) -> (instr: EncodedX86_64Instruction)
    requires
        rm64.is_valid_for(Size::Bit64),
    ensures
        instr@ == mi_parts(seq![0xC7u8], 0, rm64, imm32.bytes(), Size::Bit64).bytes(),
        prefixes_come_first(mi_parts(seq![0xC7u8], 0, rm64, imm32.bytes(), Size::Bit64)),
        instr@.len() <= EncodedX86_64Instruction::MAX_SIZE,
{
    let opcode = [0xC7];
    assert(opcode@ =~= seq![0xC7u8]);
    encode_MI_rm64_imm32(opcode, 0x00, &rm64, imm32)
}

/// Move imm8 to r8.
pub fn encode_mov_reg8_imm8(reg8: GPR, imm8: Immediate8) -> (instr: EncodedX86_64Instruction)
    requires
        reg8.spec_size() == Size::Bit8,
    ensures
        instr@ == oi_parts(0xB0, reg8, imm8.bytes()).bytes(),
        prefixes_come_first(oi_parts(0xB0, reg8, imm8.bytes())),
        instr@.len() <= EncodedX86_64Instruction::MAX_SIZE,
{
    encode_OI_r8_imm8(0xB0, reg8, imm8)
}

/// Move imm16 to r16.
pub fn encode_mov_reg16_imm16(reg16: GPR, imm16: Immediate16) -> (instr: EncodedX86_64Instruction)
    requires
        reg16.spec_size() == Size::Bit16,
    ensures
        instr@ == oi_parts(0xB8, reg16, imm16.bytes()).bytes(),
        prefixes_come_first(oi_parts(0xB8, reg16, imm16.bytes())),
        instr@.len() <= EncodedX86_64Instruction::MAX_SIZE,
{
    encode_OI_r16_imm16(0xB8, reg16, imm16)
}

/// Move imm32 to r32.
pub fn encode_mov_reg32_imm32(reg32: GPR, imm32: Immediate32) -> (instr: EncodedX86_64Instruction)
    requires
        reg32.spec_size() == Size::Bit32,
    ensures
        instr@ == oi_parts(0xB8, reg32, imm32.bytes()).bytes(),
        prefixes_come_first(oi_parts(0xB8, reg32, imm32.bytes())),
        instr@.len() <= EncodedX86_64Instruction::MAX_SIZE,
{
    encode_OI_r32_imm32(0xB8, reg32, imm32)
}

/// Move imm64 to r64.
pub fn encode_mov_reg64_imm64(reg64: GPR, imm64: Immediate64) -> (instr: EncodedX86_64Instruction)
    requires
        reg64.spec_size() == Size::Bit64,
    ensures
        instr@ == oi_parts(0xB8, reg64, imm64.bytes()).bytes(),
        prefixes_come_first(oi_parts(0xB8, reg64, imm64.bytes())),
        instr@.len() <= EncodedX86_64Instruction::MAX_SIZE,
{
    encode_OI_r64_imm64(0xB8, reg64, imm64)
}

/// Move r/m8 to r8.
pub fn encode_mov_reg8_rm8(reg8: GPR, rm8: GPROrMemory) -> (instr: EncodedX86_64Instruction)
    requires
        rm8.is_valid_for(Size::Bit8),
        reg8.spec_size() == Size::Bit8,
    ensures
        instr@ == mr_parts(seq![0x8Au8], rm8, reg8).bytes(),
        prefixes_come_first(mr_parts(seq![0x8Au8], rm8, reg8)),
        instr@.len() <= EncodedX86_64Instruction::MAX_SIZE,
{
    let opcode = [0x8A];
    assert(opcode@ =~= seq![0x8Au8]);
    encode_MR(opcode, &rm8, reg8)
}

/// Move r/m16 to r16.
pub fn encode_mov_reg16_rm16(reg16: GPR, rm16: GPROrMemory) -> (instr: EncodedX86_64Instruction)
    requires
        rm16.is_valid_for(Size::Bit16),
        reg16.spec_size() == Size::Bit16,
    ensures
        instr@ == mr_parts(seq![0x8Bu8], rm16, reg16).bytes(),
        prefixes_come_first(mr_parts(seq![0x8Bu8], rm16, reg16)),
        instr@.len() <= EncodedX86_64Instruction::MAX_SIZE,
{
    let opcode = [0x8B];
    assert(opcode@ =~= seq![0x8Bu8]);
    encode_MR(opcode, &rm16, reg16)
}

/// Move r/m32 to r32.
pub fn encode_mov_reg32_rm32(reg32: GPR, rm32: GPROrMemory) -> (instr: EncodedX86_64Instruction)
    requires
        rm32.is_valid_for(Size::Bit32),
        reg32.spec_size() == Size::Bit32,
    ensures
        instr@ == mr_parts(seq![0x8Bu8], rm32, reg32).bytes(),
        prefixes_come_first(mr_parts(seq![0x8Bu8], rm32, reg32)),
        instr@.len() <= EncodedX86_64Instruction::MAX_SIZE,
{
    let opcode = [0x8B];
    assert(opcode@ =~= seq![0x8Bu8]);
    encode_MR(opcode, &rm32, reg32)
}

/// Move r/m64 to r64.
pub fn encode_mov_reg64_rm64(reg64: GPR, rm64: GPROrMemory) -> (instr: EncodedX86_64Instruction)
    requires
        rm64.is_valid_for(Size::Bit64),
        reg64.spec_size() == Size::Bit64,
    ensures
        instr@ == mr_parts(seq![0x8Bu8], rm64, reg64).bytes(),
        prefixes_come_first(mr_parts(seq![0x8Bu8], rm64, reg64)),
        instr@.len() <= EncodedX86_64Instruction::MAX_SIZE,
{
    let opcode = [0x8B];
    assert(opcode@ =~= seq![0x8Bu8]);
    encode_MR(opcode, &rm64, reg64)
}

/// Move r8 to r/m8.
pub fn encode_mov_rm8_reg8(rm8: GPROrMemory, reg8: GPR) -> (instr: EncodedX86_64Instruction)
    requires
        rm8.is_valid_for(Size::Bit8),
        reg8.spec_size() == Size::Bit8,
    ensures
        instr@ == mr_parts(seq![0x88u8], rm8, reg8).bytes(),
        prefixes_come_first(mr_parts(seq![0x88u8], rm8, reg8)),
        instr@.len() <= EncodedX86_64Instruction::MAX_SIZE,
{
    let opcode = [0x88];
    assert(opcode@ =~= seq![0x88u8]);
    encode_MR(opcode, &rm8, reg8)
}

/// Move r16 to r/m16.
pub fn encode_mov_rm16_reg16(rm16: GPROrMemory, reg16: GPR) -> (instr: EncodedX86_64Instruction)
    requires
        rm16.is_valid_for(Size::Bit16),
        reg16.spec_size() == Size::Bit16,
    ensures
        instr@ == mr_parts(seq![0x89u8], rm16, reg16).bytes(),
        prefixes_come_first(mr_parts(seq![0x89u8], rm16, reg16)),
        instr@.len() <= EncodedX86_64Instruction::MAX_SIZE,
{
    let opcode = [0x89];
    assert(opcode@ =~= seq![0x89u8]);
    encode_MR(opcode, &rm16, reg16)
}

/// Move r32 to r/m32.
pub fn encode_mov_rm32_reg32(rm32: GPROrMemory, reg32: GPR) -> (instr: EncodedX86_64Instruction)
    requires
        rm32.is_valid_for(Size::Bit32),
        reg32.spec_size() == Size::Bit32,
    ensures
        instr@ == mr_parts(seq![0x89u8], rm32, reg32).bytes(),
        prefixes_come_first(mr_parts(seq![0x89u8], rm32, reg32)),
        instr@.len() <= EncodedX86_64Instruction::MAX_SIZE,
{
    let opcode = [0x89];
    assert(opcode@ =~= seq![0x89u8]);
    encode_MR(opcode, &rm32, reg32)
}

/// Move r64 to r/m64.
pub fn encode_mov_rm64_reg64(rm64: GPROrMemory, reg64: GPR) -> (instr: EncodedX86_64Instruction)
    requires
        rm64.is_valid_for(Size::Bit64),
        reg64.spec_size() == Size::Bit64,
    ensures
        instr@ == mr_parts(seq![0x89u8], rm64, reg64).bytes(),
        prefixes_come_first(mr_parts(seq![0x89u8], rm64, reg64)),
        instr@.len() <= EncodedX86_64Instruction::MAX_SIZE,
{
    let opcode = [0x89];
    assert(opcode@ =~= seq![0x89u8]);
    encode_MR(opcode, &rm64, reg64)
}

} // verus!
