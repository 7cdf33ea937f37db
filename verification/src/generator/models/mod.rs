//! The table of instructions and the grammar of its fields.
pub mod instruction_set;
pub mod instruction_set_deserialize;
pub mod instruction_set_variant_property;

pub use instruction_set::{Instruction, InstructionSet, Operand, OperandEncoding, Variant, VariantSet};
pub use instruction_set_deserialize::{
    deserialize_alpha_string, deserialize_opcode, deserialize_operand_encoding,
    deserialize_operands, deserialize_variant_property, TableError,
};
pub use instruction_set_variant_property::{InvalidVariantFlagError, VariantProperty};
