//! The class M: one operand, a register or a place in memory, with an
//! extension of the opcode in the `reg` field of ModR/M.
use vstd::prelude::*;

use super::helpers::{
    encode_memory, lemma_memory_operand_len, lemma_prefixes_come_first, lemma_rex_prefix_is_rex,
    is_rex, memory_operand, mod_rm, prefixes_come_first, rex_prefix, spec_mod_rm, spec_rex_prefix,
    InstructionParts, MAX_OPCODE_SIZE, OPERAND_SIZE_OVERRIDE_PREFIX,
};
use crate::models::{EncodedX86_64Instruction, GPRKind, GPROrMemory, Size};

verus! {

/// The parts of an instruction of class M.
///
/// The two flags come from the variant: `bit16_requires_os_prefix` says
/// that its 16-bit form takes the operand-size override,
/// `bit64_requires_rex_w` that its 64-bit form takes REX.W. A register
/// operand tells its own width, so it brings the prefix only where it is of
/// that width and the flag is set. A memory operand has no width of its own:
/// the flags alone decide. REX also carries B for an extended register or
/// base and X for an extended index, and stands bare where only that tells a
/// register from AH, CH, DH or BH.
pub open spec fn m_parts(
    opcode: Seq<u8>,
    extended_opcode: u8,
    gpr_or_memory: GPROrMemory,
    bit64_requires_rex_w: bool,
    bit16_requires_os_prefix: bool,
) -> InstructionParts {
    match gpr_or_memory {
        GPROrMemory::GPR { gpr } => InstructionParts {
            operand_size_override: bit16_requires_os_prefix && gpr.spec_size() == Size::Bit16,
            rex: spec_rex_prefix(
                bit64_requires_rex_w && gpr.spec_size() == Size::Bit64,
                false,
                false,
                gpr.spec_is_extended(),
                gpr.needs_rex(),
            ),
            opcode,
            operand: seq![spec_mod_rm(0b11, extended_opcode, gpr.spec_lower_3_bits_index())],
            immediate: Seq::empty(),
        },
        GPROrMemory::Memory { memory } => InstructionParts {
            operand_size_override: bit16_requires_os_prefix,
            rex: spec_rex_prefix(
                bit64_requires_rex_w,
                false,
                memory.index_is_extended(),
                memory.base_is_extended(),
                false,
            ),
            opcode,
            operand: memory_operand(extended_opcode, memory),
            immediate: Seq::empty(),
        },
    }
}

/// In an instruction of class M the prefixes stand before the opcode, and
/// the instruction is at most eight bytes longer than its opcode: seven
/// where the variant takes no operand-size override.
pub proof fn lemma_m_parts(
    opcode: Seq<u8>,
    extended_opcode: u8,
    gpr_or_memory: GPROrMemory,
    bit64_requires_rex_w: bool,
    bit16_requires_os_prefix: bool,
)
    ensures
        prefixes_come_first(
            m_parts(
                opcode,
                extended_opcode,
                gpr_or_memory,
                bit64_requires_rex_w,
                bit16_requires_os_prefix,
            ),
        ),
        m_parts(
            opcode,
            extended_opcode,
            gpr_or_memory,
            bit64_requires_rex_w,
            bit16_requires_os_prefix,
        ).rex matches Some(rex) ==> is_rex(rex),
        opcode.len() + 1 <= m_parts(
            opcode,
            extended_opcode,
            gpr_or_memory,
            bit64_requires_rex_w,
            bit16_requires_os_prefix,
        ).bytes().len() <= opcode.len() + 8,
        !bit16_requires_os_prefix ==> m_parts(
            opcode,
            extended_opcode,
            gpr_or_memory,
            bit64_requires_rex_w,
            bit16_requires_os_prefix,
        ).bytes().len() <= opcode.len() + 7,
{
    match gpr_or_memory {
        GPROrMemory::GPR { gpr } => {
            lemma_rex_prefix_is_rex(
                bit64_requires_rex_w && gpr.spec_size() == Size::Bit64,
                false,
                false,
                gpr.spec_is_extended(),
                gpr.needs_rex(),
            );
        },
        GPROrMemory::Memory { memory } => {
            lemma_rex_prefix_is_rex(
                bit64_requires_rex_w,
                false,
                memory.index_is_extended(),
                memory.base_is_extended(),
                false,
            );
            lemma_memory_operand_len(extended_opcode, memory);
        },
    }
    lemma_prefixes_come_first(
        m_parts(
            opcode,
            extended_opcode,
            gpr_or_memory,
            bit64_requires_rex_w,
            bit16_requires_os_prefix,
        ),
    );
}

/// Encodes an instruction of class M.
pub fn encode_M_gpr_or_memory<const T: usize>(
    opcode: [u8; T],
    extended_opcode: u8,
    gpr_or_memory: &GPROrMemory,
    bit64_requires_rex_w: bool,
    bit16_requires_os_prefix: bool,
) -> (instr: EncodedX86_64Instruction)
    requires
        T <= MAX_OPCODE_SIZE,
        extended_opcode < 8,
        gpr_or_memory.is_valid(),
    ensures
        instr@ == m_parts(
            opcode@,
            extended_opcode,
            *gpr_or_memory,
            bit64_requires_rex_w,
            bit16_requires_os_prefix,
        ).bytes(),
        prefixes_come_first(
            m_parts(
                opcode@,
                extended_opcode,
                *gpr_or_memory,
                bit64_requires_rex_w,
                bit16_requires_os_prefix,
            ),
        ),
        instr@.len() <= T + 8 <= EncodedX86_64Instruction::MAX_SIZE,
        !bit16_requires_os_prefix ==> instr@.len() <= T + 7,
{
    proof {
        lemma_m_parts(
            opcode@,
            extended_opcode,
            *gpr_or_memory,
            bit64_requires_rex_w,
            bit16_requires_os_prefix,
        );
    }
    let mut result_instr = EncodedX86_64Instruction::new();
    match gpr_or_memory {
        GPROrMemory::GPR { gpr } => {
            if bit16_requires_os_prefix && gpr.size().equals(Size::Bit16) {
                result_instr.push_array([OPERAND_SIZE_OVERRIDE_PREFIX]);
            }
            let rex = rex_prefix(
                bit64_requires_rex_w && gpr.size().equals(Size::Bit64),
                false,
                false,
                gpr.is_extended(),
                gpr.index_matches_bit8_high() && gpr.kind().equals(GPRKind::Bit8),
            );
            if let Some(rex) = rex {
                result_instr.push_array([rex]);
            }
            result_instr.push_array(opcode);
            result_instr.push_array([mod_rm(0b11, extended_opcode, gpr.lower_3_bits_index())]);
        },
        GPROrMemory::Memory { memory } => {
            if bit16_requires_os_prefix {
                result_instr.push_array([OPERAND_SIZE_OVERRIDE_PREFIX]);
            }
            let ext = memory.base_index_is_extended();
            let rex = rex_prefix(
                bit64_requires_rex_w,
                false,
                ext.index_is_extended,
                ext.base_is_extended,
                false,
            );
            if let Some(rex) = rex {
                result_instr.push_array([rex]);
            }
            result_instr.push_array(opcode);
            let result = encode_memory(extended_opcode, memory);
            result_instr.push_slice(result.as_slice());
        },
    }
    assert(result_instr@ =~= m_parts(
        opcode@,
        extended_opcode,
        *gpr_or_memory,
        bit64_requires_rex_w,
        bit16_requires_os_prefix,
    ).bytes());
    result_instr
}

} // verus!
