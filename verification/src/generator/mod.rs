//! Writes the source text of encoders from a table of instructions.
//!
//! The table names each instruction with the variants in which it can be
//! encoded. From it come two source files: the enumeration of the mnemonics,
//! and one encoder for each variant, which hands its operands to the rule of
//! the variant's class of operand encoding.
use vstd::prelude::*;

pub mod enc;
pub mod mnemonics;
pub mod models;
pub mod text;

use enc::{enc_source, generate_enc, is_source_of, InvalidVariant};
use mnemonics::{
    generate_mnemonics_enum, mnemonic_error, mnemonics_of, mnemonics_source, MnemonicError,
};
use models::InstructionSet;

verus! {

/// The two source files that are written from a table.
#[derive(Debug)]
pub struct GeneratedSources {
    /// The enumeration of the mnemonics.
    pub mnemonics: String,
    /// The encoders.
    pub encoders: String,
}

/// Why no source can be written from a table.
#[derive(Debug, Clone, Copy, PartialEq, Eq, Structural, Hash)]
pub enum GenerationError {
    /// The mnemonics do not make an enumeration.
    Mnemonics(MnemonicError),
    /// A variant has no encoder.
    Encoders(InvalidVariant),
}

/// Writes both source files, each starting with `header`: first the
/// enumeration of the mnemonics, then the encoders.
pub fn generate(header: &str, instruction_set: &InstructionSet) -> (result: Result<
    GeneratedSources,
    GenerationError,
>)
    ensures
        match result {
            Ok(sources) => {
                &&& mnemonic_error(mnemonics_of(instruction_set.instructions@)) is None
                &&& sources.mnemonics@ == mnemonics_source(
                    header@,
                    mnemonics_of(instruction_set.instructions@),
                )
                &&& is_source_of(
                    Ok(sources.encoders),
                    *instruction_set,
                    enc_source(header@, *instruction_set),
                )
            },
            Err(GenerationError::Mnemonics(error)) => mnemonic_error(
                mnemonics_of(instruction_set.instructions@),
            ) == Some(error),
            Err(GenerationError::Encoders(invalid)) => {
                &&& mnemonic_error(mnemonics_of(instruction_set.instructions@)) is None
                &&& is_source_of(
                    Err(invalid),
                    *instruction_set,
                    enc_source(header@, *instruction_set),
                )
            },
        },
{
    let mnemonics = match generate_mnemonics_enum(header, instruction_set) {
        Ok(mnemonics) => mnemonics,
        Err(error) => {
            return Err(GenerationError::Mnemonics(error));
        },
    };
    match generate_enc(header, instruction_set) {
        Ok(encoders) => Ok(GeneratedSources { mnemonics, encoders }),
        Err(invalid) => Err(GenerationError::Encoders(invalid)),
    }
}

} // verus!
