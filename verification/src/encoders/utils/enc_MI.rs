//! The class MI: a register or a place in memory, and an immediate.
use vstd::prelude::*;

use super::enc_M::{encode_M_gpr_or_memory, lemma_m_parts, m_parts};
use super::helpers::{
    lemma_prefixes_come_first, prefixes_come_first, InstructionParts, MAX_OPCODE_SIZE,
};
use crate::models::{
    EncodedX86_64Instruction, GPROrMemory, Immediate16, Immediate32, Immediate8, Size,
};

verus! {

/// Whether a register operand has the given size. A memory operand has no
/// size of its own and goes with any.
pub open spec fn spec_gpr_size_is_valid(gpr_or_memory: &GPROrMemory, size: Size) -> bool {
    match *gpr_or_memory {
        GPROrMemory::GPR { gpr } => gpr.spec_size() == size,
        GPROrMemory::Memory { .. } => true,
    }
}

/// Whether a register operand has the given size.
#[verifier::when_used_as_spec(spec_gpr_size_is_valid)]
#[must_use]
pub fn gpr_size_is_valid(gpr_or_memory: &GPROrMemory, size: Size) -> (valid: bool)
    ensures
        valid == spec_gpr_size_is_valid(gpr_or_memory, size),
        gpr_or_memory.is_valid_for(size) ==> valid,
{
    match gpr_or_memory {
        GPROrMemory::GPR { gpr } => gpr.size().equals(size),
        GPROrMemory::Memory { .. } => true,
    }
}

/// The parts of an instruction of class MI: those of the class M, then the
/// immediate.
///
/// `size` is the width of the operand that the variant names. A 16-bit
/// variant takes the operand-size override and a 64-bit variant REX.W,
/// whether the operand is a register or lies in memory.
pub open spec fn mi_parts(
    opcode: Seq<u8>,
    extended_opcode: u8,
    gpr_or_memory: GPROrMemory,
    immediate: Seq<u8>,
    size: Size,
) -> InstructionParts {
    let m = m_parts(
        opcode,
        extended_opcode,
        gpr_or_memory,
        size == Size::Bit64,
        size == Size::Bit16,
    );
    InstructionParts {
        operand_size_override: m.operand_size_override,
        rex: m.rex,
        opcode: m.opcode,
        operand: m.operand,
        immediate,
    }
}

/// In an instruction of class MI the prefixes stand before the opcode. Its
/// bytes are those of the class M and then the immediate, and it is at most
/// eight bytes longer than its opcode and its immediate together: seven
/// where the variant is no 16-bit one.
pub proof fn lemma_mi_parts(
    opcode: Seq<u8>,
    extended_opcode: u8,
    gpr_or_memory: GPROrMemory,
    immediate: Seq<u8>,
    size: Size,
)
    ensures
        prefixes_come_first(mi_parts(opcode, extended_opcode, gpr_or_memory, immediate, size)),
        mi_parts(opcode, extended_opcode, gpr_or_memory, immediate, size).bytes() == m_parts(
            opcode,
            extended_opcode,
            gpr_or_memory,
            size == Size::Bit64,
            size == Size::Bit16,
        ).bytes() + immediate,
        mi_parts(opcode, extended_opcode, gpr_or_memory, immediate, size).bytes().len()
            <= opcode.len() + immediate.len() + 8,
        size != Size::Bit16 ==> mi_parts(
            opcode,
            extended_opcode,
            gpr_or_memory,
            immediate,
            size,
        ).bytes().len() <= opcode.len() + immediate.len() + 7,
{
    lemma_m_parts(
        opcode,
        extended_opcode,
        gpr_or_memory,
        size == Size::Bit64,
        size == Size::Bit16,
    );
    let m = m_parts(
        opcode,
        extended_opcode,
        gpr_or_memory,
        size == Size::Bit64,
        size == Size::Bit16,
    );
    let mi = mi_parts(opcode, extended_opcode, gpr_or_memory, immediate, size);
    assert(mi.bytes() =~= m.bytes() + immediate);
    lemma_prefixes_come_first(mi);
}

/// Encodes an instruction with a 8-bit operand in a register or in memory
/// and an 8-bit immediate.
pub fn encode_MI_rm8_imm8<const T: usize>(
    opcode: [u8; T],
    extended_opcode: u8,
    gpr_or_memory: &GPROrMemory,
    imm8: Immediate8,
) -> (instr: EncodedX86_64Instruction)
    requires
        T <= MAX_OPCODE_SIZE,
        extended_opcode < 8,
        gpr_or_memory.is_valid_for(Size::Bit8),
    ensures
        instr@ == mi_parts(
            opcode@,
            extended_opcode,
            *gpr_or_memory,
            imm8.bytes(),
            Size::Bit8,
        ).bytes(),
        prefixes_come_first(
            mi_parts(opcode@, extended_opcode, *gpr_or_memory, imm8.bytes(), Size::Bit8),
        ),
        instr@.len() <= EncodedX86_64Instruction::MAX_SIZE,
{
    proof {
        imm8.lemma_bytes_are_twos_complement();
        lemma_mi_parts(opcode@, extended_opcode, *gpr_or_memory, imm8.bytes(), Size::Bit8);
    }
    let mut instr = EncodedX86_64Instruction::new();
    instr.push_slice(
        encode_M_gpr_or_memory(opcode, extended_opcode, gpr_or_memory, false, false).as_slice(),
    );
    instr.push_array(imm8.encode());
    instr
}

/// Encodes an instruction with a 16-bit operand in a register or in memory
/// and a 16-bit immediate.
pub fn encode_MI_rm16_imm16<const T: usize>(
    opcode: [u8; T],
    extended_opcode: u8,
    gpr_or_memory: &GPROrMemory,
    imm16: Immediate16,
) -> (instr: EncodedX86_64Instruction)
    requires
        T <= MAX_OPCODE_SIZE,
        extended_opcode < 8,
        gpr_or_memory.is_valid_for(Size::Bit16),
    ensures
        instr@ == mi_parts(
            opcode@,
            extended_opcode,
            *gpr_or_memory,
            imm16.bytes(),
            Size::Bit16,
        ).bytes(),
        prefixes_come_first(
            mi_parts(opcode@, extended_opcode, *gpr_or_memory, imm16.bytes(), Size::Bit16),
        ),
        instr@.len() <= EncodedX86_64Instruction::MAX_SIZE,
{
    proof {
        imm16.lemma_bytes_are_twos_complement();
        lemma_mi_parts(opcode@, extended_opcode, *gpr_or_memory, imm16.bytes(), Size::Bit16);
    }
    let mut instr = EncodedX86_64Instruction::new();
    instr.push_slice(
        encode_M_gpr_or_memory(opcode, extended_opcode, gpr_or_memory, false, true).as_slice(),
    );
    instr.push_array(imm16.encode());
    instr
}

/// Encodes an instruction with a 16-bit operand in a register or in memory
/// and an 8-bit immediate.
pub fn encode_MI_rm16_imm8<const T: usize>(
    opcode: [u8; T],
    extended_opcode: u8,
    gpr_or_memory: &GPROrMemory,
    imm8: Immediate8,
) -> (instr: EncodedX86_64Instruction)
    requires
        T <= MAX_OPCODE_SIZE,
        extended_opcode < 8,
        gpr_or_memory.is_valid_for(Size::Bit16),
    ensures
        instr@ == mi_parts(
            opcode@,
            extended_opcode,
            *gpr_or_memory,
            imm8.bytes(),
            Size::Bit16,
        ).bytes(),
        prefixes_come_first(
            mi_parts(opcode@, extended_opcode, *gpr_or_memory, imm8.bytes(), Size::Bit16),
        ),
        instr@.len() <= EncodedX86_64Instruction::MAX_SIZE,
{
    proof {
        imm8.lemma_bytes_are_twos_complement();
        lemma_mi_parts(opcode@, extended_opcode, *gpr_or_memory, imm8.bytes(), Size::Bit16);
    }
    let mut instr = EncodedX86_64Instruction::new();
    instr.push_slice(
        encode_M_gpr_or_memory(opcode, extended_opcode, gpr_or_memory, false, true).as_slice(),
    );
    instr.push_array(imm8.encode());
    instr
}

/// Encodes an instruction with a 32-bit operand in a register or in memory
/// and a 32-bit immediate.
pub fn encode_MI_rm32_imm32<const T: usize>(
    opcode: [u8; T],
    extended_opcode: u8,
    gpr_or_memory: &GPROrMemory,
    imm32: Immediate32,
) -> (instr: EncodedX86_64Instruction)
    requires
        T <= MAX_OPCODE_SIZE,
        extended_opcode < 8,
        gpr_or_memory.is_valid_for(Size::Bit32),
    ensures
        instr@ == mi_parts(
            opcode@,
            extended_opcode,
            *gpr_or_memory,
            imm32.bytes(),
            Size::Bit32,
        ).bytes(),
        prefixes_come_first(
            mi_parts(opcode@, extended_opcode, *gpr_or_memory, imm32.bytes(), Size::Bit32),
        ),
        instr@.len() <= EncodedX86_64Instruction::MAX_SIZE,
{
    proof {
        imm32.lemma_bytes_are_twos_complement();
        lemma_mi_parts(opcode@, extended_opcode, *gpr_or_memory, imm32.bytes(), Size::Bit32);
    }
    let mut instr = EncodedX86_64Instruction::new();
    instr.push_slice(
        encode_M_gpr_or_memory(opcode, extended_opcode, gpr_or_memory, false, false).as_slice(),
    );
    instr.push_array(imm32.encode());
    instr
}

/// Encodes an instruction with a 32-bit operand in a register or in memory
/// and an 8-bit immediate.
pub fn encode_MI_rm32_imm8<const T: usize>(
    opcode: [u8; T],
    extended_opcode: u8,
    gpr_or_memory: &GPROrMemory,
    imm8: Immediate8,
) -> (instr: EncodedX86_64Instruction)
    requires
        T <= MAX_OPCODE_SIZE,
        extended_opcode < 8,
        gpr_or_memory.is_valid_for(Size::Bit32),
    ensures
        instr@ == mi_parts(
            opcode@,
            extended_opcode,
            *gpr_or_memory,
            imm8.bytes(),
            Size::Bit32,
        ).bytes(),
        prefixes_come_first(
            mi_parts(opcode@, extended_opcode, *gpr_or_memory, imm8.bytes(), Size::Bit32),
        ),
        instr@.len() <= EncodedX86_64Instruction::MAX_SIZE,
{
    proof {
        imm8.lemma_bytes_are_twos_complement();
        lemma_mi_parts(opcode@, extended_opcode, *gpr_or_memory, imm8.bytes(), Size::Bit32);
    }
    let mut instr = EncodedX86_64Instruction::new();
    instr.push_slice(
        encode_M_gpr_or_memory(opcode, extended_opcode, gpr_or_memory, false, false).as_slice(),
    );
    instr.push_array(imm8.encode());
    instr
}

/// Encodes an instruction with a 64-bit operand in a register or in memory
/// and a 32-bit immediate. The immediate is
/// sign-extended by the processor.
pub fn encode_MI_rm64_imm32<const T: usize>(
    opcode: [u8; T],
    extended_opcode: u8,
    gpr_or_memory: &GPROrMemory,
    imm32: Immediate32,
) -> (instr: EncodedX86_64Instruction)
    requires
        T <= MAX_OPCODE_SIZE,
        extended_opcode < 8,
        gpr_or_memory.is_valid_for(Size::Bit64),
    ensures
        instr@ == mi_parts(
            opcode@,
            extended_opcode,
            *gpr_or_memory,
            imm32.bytes(),
            Size::Bit64,
        ).bytes(),
        prefixes_come_first(
            mi_parts(opcode@, extended_opcode, *gpr_or_memory, imm32.bytes(), Size::Bit64),
        ),
        instr@.len() <= EncodedX86_64Instruction::MAX_SIZE,
{
    proof {
        imm32.lemma_bytes_are_twos_complement();
        lemma_mi_parts(opcode@, extended_opcode, *gpr_or_memory, imm32.bytes(), Size::Bit64);
    }
    let mut instr = EncodedX86_64Instruction::new();
    instr.push_slice(
        encode_M_gpr_or_memory(opcode, extended_opcode, gpr_or_memory, true, false).as_slice(),
    );
    instr.push_array(imm32.encode());
    instr
}

/// Encodes an instruction with a 64-bit operand in a register or in memory
/// and an 8-bit immediate. The immediate is
/// sign-extended by the processor.
pub fn encode_MI_rm64_imm8<const T: usize>(
    opcode: [u8; T],
    extended_opcode: u8,
    gpr_or_memory: &GPROrMemory,
    imm8: Immediate8,
) -> (instr: EncodedX86_64Instruction)
    requires
        T <= MAX_OPCODE_SIZE,
        extended_opcode < 8,
        gpr_or_memory.is_valid_for(Size::Bit64),
    ensures
        instr@ == mi_parts(
            opcode@,
            extended_opcode,
            *gpr_or_memory,
            imm8.bytes(),
            Size::Bit64,
        ).bytes(),
        prefixes_come_first(
            mi_parts(opcode@, extended_opcode, *gpr_or_memory, imm8.bytes(), Size::Bit64),
        ),
        instr@.len() <= EncodedX86_64Instruction::MAX_SIZE,
{
    proof {
        imm8.lemma_bytes_are_twos_complement();
        lemma_mi_parts(opcode@, extended_opcode, *gpr_or_memory, imm8.bytes(), Size::Bit64);
    }
    let mut instr = EncodedX86_64Instruction::new();
    instr.push_slice(
        encode_M_gpr_or_memory(opcode, extended_opcode, gpr_or_memory, true, false).as_slice(),
    );
    instr.push_array(imm8.encode());
    instr
}

} // verus!
