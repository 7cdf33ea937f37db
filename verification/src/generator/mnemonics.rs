//! Writes the enumeration of the mnemonics of a table.
use vstd::prelude::*;
use vstd::string::StringExecFns;

use super::models::{Instruction, InstructionSet};
use super::text::{decimal, equals, push_decimal};

verus! {

/// Why no enumeration can be written for the mnemonics of a table.
#[derive(Debug, Clone, Copy, PartialEq, Eq, Structural, Hash)]
pub enum MnemonicError {
    /// Two instructions have one mnemonic.
    NotUnique,
    /// An instruction has no mnemonic.
    Empty,
}

/// The mnemonics of the instructions, in the order of the table.
pub open spec fn mnemonics_of(instructions: Seq<Instruction>) -> Seq<Seq<char>> {
    Seq::new(instructions.len(), |i: int| instructions[i].mnemonic@)
}

/// Whether no mnemonic stands twice.
pub open spec fn are_unique(mnemonics: Seq<Seq<char>>) -> bool {
    forall|i: int, j: int| 0 <= i < j < mnemonics.len() ==> mnemonics[i] != mnemonics[j]
}

/// Whether none of the mnemonics is empty.
pub open spec fn are_nonempty(mnemonics: Seq<Seq<char>>) -> bool {
    forall|i: int| 0 <= i < mnemonics.len() ==> (#[trigger] mnemonics[i]).len() > 0
}

/// What is wrong with the mnemonics, if anything is. That one stands twice
/// is found before that one is empty.
pub open spec fn mnemonic_error(mnemonics: Seq<Seq<char>>) -> Option<MnemonicError> {
    if !are_unique(mnemonics) {
        Some(MnemonicError::NotUnique)
    } else if !are_nonempty(mnemonics) {
        Some(MnemonicError::Empty)
    } else {
        None
    }
}

/// The enumerators: each mnemonic with its place in the table, counted
/// from one.
pub open spec fn enumerators(mnemonics: Seq<Seq<char>>) -> Seq<char>
    decreases mnemonics.len(),
{
    if mnemonics.len() == 0 {
        Seq::empty()
    } else {
        enumerators(mnemonics.drop_last()) + mnemonics.last() + " = "@ + decimal(mnemonics.len())
            + ",\n"@
    }
}

/// The arms that give each enumerator its text.
pub open spec fn to_str_arms(mnemonics: Seq<Seq<char>>) -> Seq<char>
    decreases mnemonics.len(),
{
    if mnemonics.len() == 0 {
        Seq::empty()
    } else {
        to_str_arms(mnemonics.drop_last()) + "Self::"@ + mnemonics.last() + " => \""@
            + mnemonics.last() + "\",\n"@
    }
}

/// The arms that give each text its enumerator.
pub open spec fn from_str_arms(mnemonics: Seq<Seq<char>>) -> Seq<char>
    decreases mnemonics.len(),
{
    if mnemonics.len() == 0 {
        Seq::empty()
    } else {
        from_str_arms(mnemonics.drop_last()) + "\""@ + mnemonics.last() + "\" => Ok(Self::"@
            + mnemonics.last() + "),\n"@
    }
}

/// The source file of the enumeration of the mnemonics: the header, the
/// error for a text that is no mnemonic, the enumeration, the two
/// conversions between enumerator and text, and the checks of their sizes.
pub open spec fn mnemonics_source(header: Seq<char>, mnemonics: Seq<Seq<char>>) -> Seq<char> {
    header
        + "\n#![allow(non_camel_case_types)]\n\n#[derive(Debug, Clone, Copy, PartialEq, Eq, Hash)]\npub struct InvalidMnemonicError;\n\n#[derive(Debug, Clone, Copy, PartialEq, Eq, Hash)]\n#[repr(u8)]\n#[must_use]\npub enum Mnemonic {\n    "@
        + enumerators(mnemonics)
        + "\n}\n\nimpl Mnemonic {\n    #[inline]\n    #[must_use]\n    pub const fn as_str(self) -> &'static str {\n        match self {\n            "@
        + to_str_arms(mnemonics)
        + "\n        }\n    }\n\n    #[inline]\n    pub fn from_str(text: &str) -> Result<Self, InvalidMnemonicError> {\n        match text {\n            "@
        + from_str_arms(mnemonics)
        + "\n            _ => Err(InvalidMnemonicError),\n        }\n    }\n}\n\nconst _: () = const {\n    assert!(size_of::<InvalidMnemonicError>() == 0, \"InvalidMnemonicError must be 0 bytes.\");\n    assert!(size_of::<Mnemonic>() == 1, \"Mnemonic must be 1 byte.\");\n    assert!(size_of::<Option<Mnemonic>>() == 1, \"Option<Mnemonic> must be 1 byte.\");\n\n};\n    "@
}

/// Whether no mnemonic stands twice in the table.
fn check_unique(instruction_set: &InstructionSet) -> (unique: bool)
    ensures
        unique == are_unique(mnemonics_of(instruction_set.instructions@)),
{
    let ghost mnemonics = mnemonics_of(instruction_set.instructions@);
    let len = instruction_set.instructions.len();
    let mut j: usize = 0;
    while j < len
        invariant
            j <= len,
            len == instruction_set.instructions@.len(),
            mnemonics == mnemonics_of(instruction_set.instructions@),
            forall|a: int, b: int| 0 <= a < b < j ==> mnemonics[a] != mnemonics[b],
        decreases len - j,
    {
        let mut i: usize = 0;
        while i < j
            invariant
                i <= j < len,
                len == instruction_set.instructions@.len(),
                mnemonics == mnemonics_of(instruction_set.instructions@),
                forall|a: int| 0 <= a < i ==> mnemonics[a] != mnemonics[j as int],
            decreases j - i,
        {
            if equals(
                instruction_set.instructions[i].mnemonic.as_str(),
                instruction_set.instructions[j].mnemonic.as_str(),
            ) {
                assert(mnemonics[i as int] == mnemonics[j as int]);
                return false;
            }
            i += 1;
        }
        j += 1;
    }
    true
}

/// Writes the source file of the enumeration of the mnemonics, which
/// starts with `header`.
pub fn generate_mnemonics_enum(header: &str, instruction_set: &InstructionSet) -> (result: Result<
    String,
    MnemonicError,
>)
    ensures
        result is Ok <==> mnemonic_error(mnemonics_of(instruction_set.instructions@)) is None,
        result matches Ok(text) ==> text@ == mnemonics_source(
            header@,
            mnemonics_of(instruction_set.instructions@),
        ),
        result matches Err(error) ==> mnemonic_error(mnemonics_of(instruction_set.instructions@))
            == Some(error),
{
    if !check_unique(instruction_set) {
        return Err(MnemonicError::NotUnique);
    }
    let ghost mnemonics = mnemonics_of(instruction_set.instructions@);
    let mut mnemonics_variants = String::new();
    let mut mnemonics_to_str = String::new();
    let mut mnemonics_from_str = String::new();
    let len = instruction_set.instructions.len();
    let mut i: usize = 0;
    assert(mnemonics.take(0) =~= Seq::<Seq<char>>::empty());
    while i < len
        invariant
            i <= len,
            len == instruction_set.instructions@.len(),
            mnemonics == mnemonics_of(instruction_set.instructions@),
            are_unique(mnemonics),
            mnemonics_variants@ == enumerators(mnemonics.take(i as int)),
            mnemonics_to_str@ == to_str_arms(mnemonics.take(i as int)),
            mnemonics_from_str@ == from_str_arms(mnemonics.take(i as int)),
            forall|k: int| 0 <= k < i ==> (#[trigger] mnemonics[k]).len() > 0,
        decreases len - i,
    {
        let mnemonic = instruction_set.instructions[i].mnemonic.as_str();
        assert(mnemonic@ == mnemonics[i as int]);
        if mnemonic.is_empty() {
            return Err(MnemonicError::Empty);
        }
        proof {
            assert(mnemonics.take(i + 1).drop_last() =~= mnemonics.take(i as int));
            assert(mnemonics.take(i + 1).last() == mnemonic@);
        }
        let idx = i + 1;
        mnemonics_variants.append(mnemonic);
        mnemonics_variants.append(" = ");
        push_decimal(&mut mnemonics_variants, idx);
        mnemonics_variants.append(",\n");
        mnemonics_to_str.append("Self::");
        mnemonics_to_str.append(mnemonic);
        mnemonics_to_str.append(" => \"");
        mnemonics_to_str.append(mnemonic);
        mnemonics_to_str.append("\",\n");
        mnemonics_from_str.append("\"");
        mnemonics_from_str.append(mnemonic);
        mnemonics_from_str.append("\" => Ok(Self::");
        mnemonics_from_str.append(mnemonic);
        mnemonics_from_str.append("),\n");
        i += 1;
    }
    assert(mnemonics.take(i as int) =~= mnemonics);
    let mut output = String::from_str(header);
    output.append(
        "\n#![allow(non_camel_case_types)]\n\n#[derive(Debug, Clone, Copy, PartialEq, Eq, Hash)]\npub struct InvalidMnemonicError;\n\n#[derive(Debug, Clone, Copy, PartialEq, Eq, Hash)]\n#[repr(u8)]\n#[must_use]\npub enum Mnemonic {\n    ",
    );
    output.append(mnemonics_variants.as_str());
    output.append(
        "\n}\n\nimpl Mnemonic {\n    #[inline]\n    #[must_use]\n    pub const fn as_str(self) -> &'static str {\n        match self {\n            ",
    );
    output.append(mnemonics_to_str.as_str());
    output.append(
        "\n        }\n    }\n\n    #[inline]\n    pub fn from_str(text: &str) -> Result<Self, InvalidMnemonicError> {\n        match text {\n            ",
    );
    output.append(mnemonics_from_str.as_str());
    output.append(
        "\n            _ => Err(InvalidMnemonicError),\n        }\n    }\n}\n\nconst _: () = const {\n    assert!(size_of::<InvalidMnemonicError>() == 0, \"InvalidMnemonicError must be 0 bytes.\");\n    assert!(size_of::<Mnemonic>() == 1, \"Mnemonic must be 1 byte.\");\n    assert!(size_of::<Option<Mnemonic>>() == 1, \"Option<Mnemonic> must be 1 byte.\");\n\n};\n    ",
    );
    Ok(output)
}

} // verus!
