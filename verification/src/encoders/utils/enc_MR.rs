//! The class MR: a register in the `reg` field of ModR/M, and a register or
//! a place in memory in its `rm` field. Which of the two an instruction
//! reads and which it writes lies in the opcode.
use vstd::prelude::*;

use super::helpers::{
    encode_memory, lemma_memory_operand_len, lemma_prefixes_come_first, lemma_rex_prefix_is_rex,
    memory_operand, mod_rm, prefixes_come_first, rex_prefix, spec_mod_rm, spec_rex_prefix,
    InstructionParts, MAX_OPCODE_SIZE, OPERAND_SIZE_OVERRIDE_PREFIX,
};
use crate::models::{EncodedX86_64Instruction, GPRKind, GPROrMemory, Memory, Size, GPR};

verus! {

/// The parts of an instruction of class MR whose second operand lies in
/// memory.
///
/// The register gives the width: the operand-size override where it is 16
/// bits wide, REX.W where it is 64 bits wide. REX.R is set for an extended
/// register, REX.X and REX.B for an extended index and base, and a bare REX
/// stands where only that tells the register from AH, CH, DH or BH.
pub open spec fn mr_memory_parts(opcode: Seq<u8>, memory: Memory, gpr: GPR) -> InstructionParts {
    InstructionParts {
        operand_size_override: gpr.spec_size() == Size::Bit16,
        rex: spec_rex_prefix(
            gpr.spec_size() == Size::Bit64,
            gpr.spec_is_extended(),
            memory.index_is_extended(),
            memory.base_is_extended(),
            gpr.needs_rex(),
        ),
        opcode,
        operand: memory_operand(gpr.spec_lower_3_bits_index(), memory),
        immediate: Seq::empty(),
    }
}

/// The parts of an instruction of class MR.
///
/// With two registers the operand-size override follows the register in
/// `reg`, and REX.W the one in `rm`; REX.R and REX.B are set for an extended
/// register in `reg` and in `rm`, and a bare REX stands where only that
/// tells either register from AH, CH, DH or BH.
pub open spec fn mr_parts(opcode: Seq<u8>, gpr_or_memory: GPROrMemory, gpr: GPR) -> InstructionParts {
    match gpr_or_memory {
        GPROrMemory::GPR { gpr: rm_gpr } => InstructionParts {
            operand_size_override: gpr.spec_size() == Size::Bit16,
            rex: spec_rex_prefix(
                rm_gpr.spec_size() == Size::Bit64,
                gpr.spec_is_extended(),
                false,
                rm_gpr.spec_is_extended(),
                rm_gpr.needs_rex() || gpr.needs_rex(),
            ),
            opcode,
            operand: seq![
                spec_mod_rm(
                    0b11,
                    gpr.spec_lower_3_bits_index(),
                    rm_gpr.spec_lower_3_bits_index(),
                ),
            ],
            immediate: Seq::empty(),
        },
        GPROrMemory::Memory { memory } => mr_memory_parts(opcode, memory, gpr),
    }
}

/// In an instruction of class MR the prefixes stand before the opcode, and
/// the instruction is at most eight bytes longer than its opcode.
pub proof fn lemma_mr_parts(opcode: Seq<u8>, gpr_or_memory: GPROrMemory, gpr: GPR)
    ensures
        prefixes_come_first(mr_parts(opcode, gpr_or_memory, gpr)),
        opcode.len() + 1 <= mr_parts(opcode, gpr_or_memory, gpr).bytes().len() <= opcode.len() + 8,
{
    match gpr_or_memory {
        GPROrMemory::GPR { gpr: rm_gpr } => {
            lemma_rex_prefix_is_rex(
                rm_gpr.spec_size() == Size::Bit64,
                gpr.spec_is_extended(),
                false,
                rm_gpr.spec_is_extended(),
                rm_gpr.needs_rex() || gpr.needs_rex(),
            );
        },
        GPROrMemory::Memory { memory } => {
            lemma_rex_prefix_is_rex(
                gpr.spec_size() == Size::Bit64,
                gpr.spec_is_extended(),
                memory.index_is_extended(),
                memory.base_is_extended(),
                gpr.needs_rex(),
            );
            lemma_memory_operand_len(gpr.spec_lower_3_bits_index(), memory);
        },
    }
    lemma_prefixes_come_first(mr_parts(opcode, gpr_or_memory, gpr));
}

/// Whether the register is one of SPL, BPL, SIL and DIL, which only a REX
/// prefix tells from AH, CH, DH and BH.
fn is_low_byte_behind_rex(gpr: GPR) -> (needed: bool)
    ensures
        needed == gpr.needs_rex(),
{
    gpr.index_matches_bit8_high() && gpr.kind().equals(GPRKind::Bit8)
}

/// Encodes an instruction of class MR.
pub fn encode_MR<const T: usize>(opcode: [u8; T], gpr_or_memory: &GPROrMemory, gpr: GPR) -> (instr:
    EncodedX86_64Instruction)
    requires
        T <= MAX_OPCODE_SIZE,
        gpr_or_memory.is_valid(),
    ensures
        instr@ == mr_parts(opcode@, *gpr_or_memory, gpr).bytes(),
        prefixes_come_first(mr_parts(opcode@, *gpr_or_memory, gpr)),
        instr@.len() <= T + 8 <= EncodedX86_64Instruction::MAX_SIZE,
{
    proof {
        lemma_mr_parts(opcode@, *gpr_or_memory, gpr);
    }
    let mut result_instr = EncodedX86_64Instruction::new();
    if gpr.size().equals(Size::Bit16) {
        result_instr.push_array([OPERAND_SIZE_OVERRIDE_PREFIX]);
    }
    match gpr_or_memory {
        GPROrMemory::GPR { gpr: rm_gpr } => {
            let rex = rex_prefix(
                rm_gpr.size().equals(Size::Bit64),
                gpr.is_extended(),
                false,
                rm_gpr.is_extended(),
                is_low_byte_behind_rex(*rm_gpr) || is_low_byte_behind_rex(gpr),
            );
            if let Some(rex) = rex {
                result_instr.push_array([rex]);
            }
            result_instr.push_array(opcode);
            result_instr.push_array(
                [mod_rm(0b11, gpr.lower_3_bits_index(), rm_gpr.lower_3_bits_index())],
            );
        },
        GPROrMemory::Memory { memory } => {
            let ext = memory.base_index_is_extended();
            let rex = rex_prefix(
                gpr.size().equals(Size::Bit64),
                gpr.is_extended(),
                ext.index_is_extended,
                ext.base_is_extended,
                is_low_byte_behind_rex(gpr),
            );
            if let Some(rex) = rex {
                result_instr.push_array([rex]);
            }
            result_instr.push_array(opcode);
            let result = encode_memory(gpr.lower_3_bits_index(), memory);
            result_instr.push_slice(result.as_slice());
        },
    }
    assert(result_instr@ =~= mr_parts(opcode@, *gpr_or_memory, gpr).bytes());
    result_instr
}

/// Encodes an instruction of class MR whose second operand has to lie in
/// memory.
pub fn encode_MR_m<const T: usize>(opcode: [u8; T], memory: &Memory, gpr: GPR) -> (instr:
    EncodedX86_64Instruction)
    requires
        T <= MAX_OPCODE_SIZE,
        memory.is_valid(),
    ensures
        instr@ == mr_memory_parts(opcode@, *memory, gpr).bytes(),
        prefixes_come_first(mr_memory_parts(opcode@, *memory, gpr)),
        instr@.len() <= T + 8 <= EncodedX86_64Instruction::MAX_SIZE,
{
    proof {
        lemma_mr_parts(opcode@, GPROrMemory::Memory { memory: *memory }, gpr);
    }
    let mut result_instr = EncodedX86_64Instruction::new();
    if gpr.size().equals(Size::Bit16) {
        result_instr.push_array([OPERAND_SIZE_OVERRIDE_PREFIX]);
    }
    let ext = memory.base_index_is_extended();
    let rex = rex_prefix(
        gpr.size().equals(Size::Bit64),
        gpr.is_extended(),
        ext.index_is_extended,
        ext.base_is_extended,
        is_low_byte_behind_rex(gpr),
    );
    if let Some(rex) = rex {
        result_instr.push_array([rex]);
    }
    result_instr.push_array(opcode);
    let result = encode_memory(gpr.lower_3_bits_index(), memory);
    result_instr.push_slice(result.as_slice());
    assert(result_instr@ =~= mr_memory_parts(opcode@, *memory, gpr).bytes());
    result_instr
}

} // verus!
