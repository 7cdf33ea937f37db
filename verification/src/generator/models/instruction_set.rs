//! The table of instructions.
use vstd::prelude::*;

use super::instruction_set_variant_property::VariantProperty;
use crate::generator::text::equals;

verus! {

/// The kinds of operand that a variant can take.
#[derive(Debug, Clone, Copy, PartialEq, Eq, Structural, Hash)]
pub enum Operand {
    /// An 8-bit immediate.
    imm8,
    /// A 16-bit immediate.
    imm16,
    /// A 32-bit immediate.
    imm32,
    /// A 64-bit immediate.
    imm64,
    /// An 8-bit register or a place in memory.
    rm8,
    /// A 16-bit register or a place in memory.
    rm16,
    /// A 32-bit register or a place in memory.
    rm32,
    /// A 64-bit register or a place in memory.
    rm64,
    /// An 8-bit register.
    reg8,
    /// A 16-bit register.
    reg16,
    /// A 32-bit register.
    reg32,
    /// A 64-bit register.
    reg64,
    /// A place in memory.
    m,
}

impl Operand {
    /// The name of the operand in the table.
    pub open spec fn name(self) -> Seq<char> {
        match self {
            Operand::imm8 => "imm8"@,
            Operand::imm16 => "imm16"@,
            Operand::imm32 => "imm32"@,
            Operand::imm64 => "imm64"@,
            Operand::rm8 => "rm8"@,
            Operand::rm16 => "rm16"@,
            Operand::rm32 => "rm32"@,
            Operand::rm64 => "rm64"@,
            Operand::reg8 => "reg8"@,
            Operand::reg16 => "reg16"@,
            Operand::reg32 => "reg32"@,
            Operand::reg64 => "reg64"@,
            Operand::m => "m"@,
        }
    }

    /// The operand with the given name.
    pub open spec fn parse(name: Seq<char>) -> Option<Operand> {
        if name == "imm8"@ {
            Some(Operand::imm8)
        } else if name == "imm16"@ {
            Some(Operand::imm16)
        } else if name == "imm32"@ {
            Some(Operand::imm32)
        } else if name == "imm64"@ {
            Some(Operand::imm64)
        } else if name == "rm8"@ {
            Some(Operand::rm8)
        } else if name == "rm16"@ {
            Some(Operand::rm16)
        } else if name == "rm32"@ {
            Some(Operand::rm32)
        } else if name == "rm64"@ {
            Some(Operand::rm64)
        } else if name == "reg8"@ {
            Some(Operand::reg8)
        } else if name == "reg16"@ {
            Some(Operand::reg16)
        } else if name == "reg32"@ {
            Some(Operand::reg32)
        } else if name == "reg64"@ {
            Some(Operand::reg64)
        } else if name == "m"@ {
            Some(Operand::m)
        } else {
            None
        }
    }

    /// The name of the operand in the table.
    pub fn as_str(self) -> (name: &'static str)
        ensures
            name@ == self.name(),
    {
        match self {
            Operand::imm8 => "imm8",
            Operand::imm16 => "imm16",
            Operand::imm32 => "imm32",
            Operand::imm64 => "imm64",
            Operand::rm8 => "rm8",
            Operand::rm16 => "rm16",
            Operand::rm32 => "rm32",
            Operand::rm64 => "rm64",
            Operand::reg8 => "reg8",
            Operand::reg16 => "reg16",
            Operand::reg32 => "reg32",
            Operand::reg64 => "reg64",
            Operand::m => "m",
        }
    }

    /// The operand with the given name, if there is one.
    pub fn from_name(name: &str) -> (operand: Option<Operand>)
        ensures
            operand == Operand::parse(name@),
    {
        if equals(name, "imm8") {
            Some(Operand::imm8)
        } else if equals(name, "imm16") {
            Some(Operand::imm16)
        } else if equals(name, "imm32") {
            Some(Operand::imm32)
        } else if equals(name, "imm64") {
            Some(Operand::imm64)
        } else if equals(name, "rm8") {
            Some(Operand::rm8)
        } else if equals(name, "rm16") {
            Some(Operand::rm16)
        } else if equals(name, "rm32") {
            Some(Operand::rm32)
        } else if equals(name, "rm64") {
            Some(Operand::rm64)
        } else if equals(name, "reg8") {
            Some(Operand::reg8)
        } else if equals(name, "reg16") {
            Some(Operand::reg16)
        } else if equals(name, "reg32") {
            Some(Operand::reg32)
        } else if equals(name, "reg64") {
            Some(Operand::reg64)
        } else if equals(name, "m") {
            Some(Operand::m)
        } else {
            None
        }
    }

    /// Every operand is found again by its name.
    pub proof fn lemma_name_round_trip(self)
        ensures
            Operand::parse(self.name()) == Some(self),
    {
        reveal_strlit("imm8");
        reveal_strlit("imm16");
        reveal_strlit("imm32");
        reveal_strlit("imm64");
        reveal_strlit("rm8");
        reveal_strlit("rm16");
        reveal_strlit("rm32");
        reveal_strlit("rm64");
        reveal_strlit("reg8");
        reveal_strlit("reg16");
        reveal_strlit("reg32");
        reveal_strlit("reg64");
        reveal_strlit("m");
        assert("imm8"@.len() == 4);
        assert("imm8"@[0] == 'i');
        assert("imm8"@[1] == 'm');
        assert("imm8"@[2] == 'm');
        assert("imm8"@[3] == '8');
        assert("imm16"@.len() == 5);
        assert("imm16"@[0] == 'i');
        assert("imm16"@[1] == 'm');
        assert("imm16"@[2] == 'm');
        assert("imm16"@[3] == '1');
        assert("imm16"@[4] == '6');
        assert("imm32"@.len() == 5);
        assert("imm32"@[0] == 'i');
        assert("imm32"@[1] == 'm');
        assert("imm32"@[2] == 'm');
        assert("imm32"@[3] == '3');
        assert("imm32"@[4] == '2');
        assert("imm64"@.len() == 5);
        assert("imm64"@[0] == 'i');
        assert("imm64"@[1] == 'm');
        assert("imm64"@[2] == 'm');
        assert("imm64"@[3] == '6');
        assert("imm64"@[4] == '4');
        assert("rm8"@.len() == 3);
        assert("rm8"@[0] == 'r');
        assert("rm8"@[1] == 'm');
        assert("rm8"@[2] == '8');
        assert("rm16"@.len() == 4);
        assert("rm16"@[0] == 'r');
        assert("rm16"@[1] == 'm');
        assert("rm16"@[2] == '1');
        assert("rm16"@[3] == '6');
        assert("rm32"@.len() == 4);
        assert("rm32"@[0] == 'r');
        assert("rm32"@[1] == 'm');
        assert("rm32"@[2] == '3');
        assert("rm32"@[3] == '2');
        assert("rm64"@.len() == 4);
        assert("rm64"@[0] == 'r');
        assert("rm64"@[1] == 'm');
        assert("rm64"@[2] == '6');
        assert("rm64"@[3] == '4');
        assert("reg8"@.len() == 4);
        assert("reg8"@[0] == 'r');
        assert("reg8"@[1] == 'e');
        assert("reg8"@[2] == 'g');
        assert("reg8"@[3] == '8');
        assert("reg16"@.len() == 5);
        assert("reg16"@[0] == 'r');
        assert("reg16"@[1] == 'e');
        assert("reg16"@[2] == 'g');
        assert("reg16"@[3] == '1');
        assert("reg16"@[4] == '6');
        assert("reg32"@.len() == 5);
        assert("reg32"@[0] == 'r');
        assert("reg32"@[1] == 'e');
        assert("reg32"@[2] == 'g');
        assert("reg32"@[3] == '3');
        assert("reg32"@[4] == '2');
        assert("reg64"@.len() == 5);
        assert("reg64"@[0] == 'r');
        assert("reg64"@[1] == 'e');
        assert("reg64"@[2] == 'g');
        assert("reg64"@[3] == '6');
        assert("reg64"@[4] == '4');
        assert("m"@.len() == 1);
        assert("m"@[0] == 'm');
    }
}

/// The classes of operand encoding, named as in Intel's manual.
#[derive(Debug, Clone, Copy, PartialEq, Eq, Structural, Hash)]
pub enum OperandEncoding {
    /// No operands.
    ZO,
    /// An immediate.
    I,
    /// An immediate to a register or to memory.
    MI,
    /// A register to a register or to memory, or the other way.
    MR,
    /// A register, added to the opcode.
    O,
    /// An immediate to a register that is added to the opcode.
    OI,
    /// A register or a place in memory.
    M,
}

impl OperandEncoding {
    /// The name of the encoding in the table.
    pub open spec fn name(self) -> Seq<char> {
        match self {
            OperandEncoding::ZO => "ZO"@,
            OperandEncoding::I => "I"@,
            OperandEncoding::MI => "MI"@,
            OperandEncoding::MR => "MR"@,
            OperandEncoding::O => "O"@,
            OperandEncoding::OI => "OI"@,
            OperandEncoding::M => "M"@,
        }
    }

    /// The encoding with the given name.
    pub open spec fn parse(name: Seq<char>) -> Option<OperandEncoding> {
        if name == "ZO"@ {
            Some(OperandEncoding::ZO)
        } else if name == "I"@ {
            Some(OperandEncoding::I)
        } else if name == "MI"@ {
            Some(OperandEncoding::MI)
        } else if name == "MR"@ {
            Some(OperandEncoding::MR)
        } else if name == "O"@ {
            Some(OperandEncoding::O)
        } else if name == "OI"@ {
            Some(OperandEncoding::OI)
        } else if name == "M"@ {
            Some(OperandEncoding::M)
        } else {
            None
        }
    }

    /// The name of the encoding in the table.
    pub fn as_str(self) -> (name: &'static str)
        ensures
            name@ == self.name(),
    {
        match self {
            OperandEncoding::ZO => "ZO",
            OperandEncoding::I => "I",
            OperandEncoding::MI => "MI",
            OperandEncoding::MR => "MR",
            OperandEncoding::O => "O",
            OperandEncoding::OI => "OI",
            OperandEncoding::M => "M",
        }
    }

    /// The encoding with the given name, if there is one.
    pub fn from_name(name: &str) -> (encoding: Option<OperandEncoding>)
        ensures
            encoding == OperandEncoding::parse(name@),
    {
        if equals(name, "ZO") {
            Some(OperandEncoding::ZO)
        } else if equals(name, "I") {
            Some(OperandEncoding::I)
        } else if equals(name, "MI") {
            Some(OperandEncoding::MI)
        } else if equals(name, "MR") {
            Some(OperandEncoding::MR)
        } else if equals(name, "O") {
            Some(OperandEncoding::O)
        } else if equals(name, "OI") {
            Some(OperandEncoding::OI)
        } else if equals(name, "M") {
            Some(OperandEncoding::M)
        } else {
            None
        }
    }

    /// Every encoding is found again by its name.
    pub proof fn lemma_name_round_trip(self)
        ensures
            OperandEncoding::parse(self.name()) == Some(self),
    {
        reveal_strlit("ZO");
        reveal_strlit("I");
        reveal_strlit("MI");
        reveal_strlit("MR");
        reveal_strlit("O");
        reveal_strlit("OI");
        reveal_strlit("M");
        assert("ZO"@.len() == 2);
        assert("ZO"@[0] == 'Z');
        assert("ZO"@[1] == 'O');
        assert("I"@.len() == 1);
        assert("I"@[0] == 'I');
        assert("MI"@.len() == 2);
        assert("MI"@[0] == 'M');
        assert("MI"@[1] == 'I');
        assert("MR"@.len() == 2);
        assert("MR"@[0] == 'M');
        assert("MR"@[1] == 'R');
        assert("O"@.len() == 1);
        assert("O"@[0] == 'O');
        assert("OI"@.len() == 2);
        assert("OI"@[0] == 'O');
        assert("OI"@[1] == 'I');
        assert("M"@.len() == 1);
        assert("M"@[0] == 'M');
    }
}

/// One way to encode an instruction: an opcode with the operands it takes.
#[derive(Debug)]
pub struct Variant {
    /// The bytes of the opcode.
    pub opcode: Vec<u8>,
    /// What tells this variant from others with the same operands; empty
    /// where nothing has to.
    pub name: String,
    /// The extension of the opcode in the `reg` field of ModR/M.
    pub extended_opcode: Option<u8>,
    /// The operands, in the order in which the encoder takes them.
    pub operands: Vec<Operand>,
    /// The class of operand encoding.
    pub encoding: OperandEncoding,
    /// The prefixes that the variant asks for.
    pub additional_properties: VariantProperty,
    /// What the instruction does, for the documentation of its encoder.
    pub description: String,
}

/// The variants of one instruction.
#[derive(Debug)]
pub struct VariantSet {
    pub variants: Vec<Variant>,
}

/// An instruction: a mnemonic and its variants.
#[derive(Debug)]
pub struct Instruction {
    pub mnemonic: String,
    pub variant_set: VariantSet,
}

/// The table of instructions.
#[derive(Debug)]
pub struct InstructionSet {
    pub instructions: Vec<Instruction>,
}

} // verus!
