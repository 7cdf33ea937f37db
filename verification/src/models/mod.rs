//! The operands of x86-64 instructions, and the encoded instruction itself.
pub mod encoded_instruction;
pub mod gpr;
pub mod gpr_or_memory;
pub mod immediates;
pub mod memory;
pub mod size;

pub use encoded_instruction::EncodedX86_64Instruction;
pub use gpr::{
    gpr_is_valid, lemma_gpr_by_kind_and_index, lemma_gpr_of, GPRKind, NewGPRError, GPR,
};
pub use gpr_or_memory::GPROrMemory;
pub use immediates::{
    lemma_little_endian_len, lemma_little_endian_wraps, little_endian, Immediate16, Immediate32,
    Immediate64, Immediate8,
};
pub use memory::{is_valid_base, is_valid_index, BaseIndexIsExtended, Memory, Offset, Scale};
pub use size::Size;
