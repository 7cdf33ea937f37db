//! Writes the encoders: one function for each variant of each instruction.
use vstd::prelude::*;
use vstd::string::StringExecFns;

use super::models::{Instruction, InstructionSet, Operand, OperandEncoding, Variant};
use super::text::{hex_byte, hex_list, push_hex_byte};

verus! {

/// Why no encoder can be written for a variant.
#[derive(Debug, Clone, Copy, PartialEq, Eq, Structural, Hash)]
pub enum VariantError {
    /// The variant has more or fewer operands than its class takes.
    OperandCount,
    /// The class needs an extension of the opcode and the variant has none.
    MissingExtendedOpcode,
    /// The class has no place for an extension of the opcode and the variant
    /// has one.
    UnexpectedExtendedOpcode,
    /// Both operands are of a kind that can lie in memory.
    TwoMemoryOperands,
    /// The class has no encoding for operands of these kinds.
    UnsupportedOperands,
}

/// Where in the table the writing of the encoders stopped, and why.
#[derive(Debug, Clone, Copy, PartialEq, Eq, Structural, Hash)]
pub struct InvalidVariant {
    /// The place of the instruction in the table.
    pub instruction: usize,
    /// The place of the variant in the instruction.
    pub variant: usize,
    /// What is wrong with the variant.
    pub error: VariantError,
}

/// The type of the argument that an encoder takes for an operand.
pub open spec fn argument_type(operand: Operand) -> Seq<char> {
    match operand {
        Operand::imm8 => "Immediate8"@,
        Operand::imm16 => "Immediate16"@,
        Operand::imm32 => "Immediate32"@,
        Operand::imm64 => "Immediate64"@,
        Operand::rm8 | Operand::rm16 | Operand::rm32 | Operand::rm64 => "GPROrMemory"@,
        Operand::reg8 | Operand::reg16 | Operand::reg32 | Operand::reg64 => "GPR"@,
        Operand::m => "Memory"@,
    }
}

/// The argument that an encoder takes for an operand: its name and its
/// type.
pub open spec fn argument(operand: Operand) -> Seq<char> {
    operand.name() + ": "@ + argument_type(operand)
}

/// Whether an operand is a register or a place in memory.
pub open spec fn is_memory_operand(operand: Operand) -> bool {
    operand == Operand::rm8 || operand == Operand::rm16 || operand == Operand::rm32 || operand
        == Operand::rm64
}

/// Whether an operand is a register.
pub open spec fn is_register_operand(operand: Operand) -> bool {
    operand == Operand::reg8 || operand == Operand::reg16 || operand == Operand::reg32 || operand
        == Operand::reg64
}

/// Whether an operand is an immediate.
pub open spec fn is_immediate_operand(operand: Operand) -> bool {
    operand == Operand::imm8 || operand == Operand::imm16 || operand == Operand::imm32 || operand
        == Operand::imm64
}

/// The name of the encoder of a variant, before the names of its operands:
/// `encode_`, the mnemonic and, where the variant has a name, that name
/// after an underscore.
pub open spec fn function_name_of(mnemonic: Seq<char>, name: Seq<char>) -> Seq<char> {
    if name.len() == 0 {
        "encode_"@ + mnemonic
    } else {
        "encode_"@ + mnemonic + "_"@ + name
    }
}

/// The source of an encoder that any caller may call.
pub open spec fn safe_function(
    description: Seq<char>,
    name: Seq<char>,
    arguments: Seq<char>,
    body: Seq<char>,
) -> Seq<char> {
    "\n/// "@ + description + "\n#[inline(always)]\npub const fn "@ + name + "("@ + arguments
        + ") -> EncodedX86_64Instruction {\n    "@ + body + "\n}\n"@
}

/// The source of an encoder whose caller answers for the operands.
pub open spec fn unchecked_function(
    description: Seq<char>,
    name: Seq<char>,
    arguments: Seq<char>,
    body: Seq<char>,
) -> Seq<char> {
    "\n/// "@ + description
        + "\n///\n/// # Safety\n///\n/// The caller has to ensure that the operands are valid,\n/// in particular the function does not check register sizes.\n#[inline(always)]\npub const unsafe fn "@
        + name + "("@ + arguments + ") -> EncodedX86_64Instruction {\n    "@ + body + "\n}\n"@
}

/// The source of the encoder of a variant without operands.
pub open spec fn zo_source(mnemonic: Seq<char>, variant: Variant) -> Seq<char> {
    safe_function(
        variant.description@,
        function_name_of(mnemonic, variant.name@),
        ""@,
        "unsafe { EncodedX86_64Instruction::from_array(["@ + hex_list(variant.opcode@) + "]) }"@,
    )
}

/// The rule that encodes an immediate: the one with a prefix where the
/// variant asks for the prefix that goes with the width of the immediate.
pub open spec fn i_rule(operand: Operand, variant: Variant) -> Seq<char> {
    if operand == Operand::imm16 && variant.additional_properties.prefix_oso {
        "encode_I_imm16_operand_size_override"@
    } else if operand == Operand::imm32 && variant.additional_properties.prefix_rex_w {
        "encode_I_imm32_prefix_rex_w"@
    } else {
        "encode_I_"@ + operand.name()
    }
}

/// The source of the encoder of a variant of class I, or why there is none.
pub open spec fn i_source(mnemonic: Seq<char>, variant: Variant) -> Result<Seq<char>, VariantError> {
    if variant.operands@.len() != 1 {
        Err(VariantError::OperandCount)
    } else {
        let operand = variant.operands@[0];
        if operand != Operand::imm8 && operand != Operand::imm16 && operand != Operand::imm32 {
            Err(VariantError::UnsupportedOperands)
        } else {
            Ok(
                safe_function(
                    variant.description@,
                    function_name_of(mnemonic, variant.name@) + "_"@ + operand.name(),
                    argument(operand),
                    "unsafe { utils::enc_I::"@ + i_rule(operand, variant) + "(["@ + hex_list(
                        variant.opcode@,
                    ) + "], "@ + operand.name() + ") }"@,
                ),
            )
        }
    }
}

/// Whether the class MI encodes an immediate of this kind to an operand of
/// that kind.
pub open spec fn is_mi_pair(rm: Operand, imm: Operand) -> bool {
    ||| rm == Operand::rm8 && imm == Operand::imm8
    ||| rm == Operand::rm16 && (imm == Operand::imm16 || imm == Operand::imm8)
    ||| rm == Operand::rm32 && (imm == Operand::imm32 || imm == Operand::imm8)
    ||| rm == Operand::rm64 && (imm == Operand::imm32 || imm == Operand::imm8)
}

/// The source of the encoder of a variant of class MI, or why there is
/// none.
pub open spec fn mi_source(mnemonic: Seq<char>, variant: Variant) -> Result<
    Seq<char>,
    VariantError,
> {
    if variant.operands@.len() != 2 {
        Err(VariantError::OperandCount)
    } else if variant.extended_opcode is None {
        Err(VariantError::MissingExtendedOpcode)
    } else {
        let rm = variant.operands@[0];
        let imm = variant.operands@[1];
        if !is_mi_pair(rm, imm) {
            Err(VariantError::UnsupportedOperands)
        } else {
            Ok(
                unchecked_function(
                    variant.description@,
                    function_name_of(mnemonic, variant.name@) + "_"@ + rm.name() + "_"@
                        + imm.name(),
                    argument(rm) + ", "@ + argument(imm),
                    "unsafe { utils::enc_MI::encode_MI_"@ + rm.name() + "_"@ + imm.name() + "(["@
                        + hex_list(variant.opcode@) + "], "@ + hex_byte(
                        variant.extended_opcode->0,
                    ) + ", &"@ + rm.name() + ", "@ + imm.name() + ") }"@,
                ),
            )
        }
    }
}

/// The call of the rule of class MR. An operand that is a register or a
/// place in memory goes first, whichever of the two the variant names
/// first; an operand that can only lie in memory goes first too, to the
/// rule for memory.
pub open spec fn mr_call(first: Operand, second: Operand, opcode: Seq<u8>) -> Seq<char> {
    let (a, b) = if is_memory_operand(second) {
        (second, first)
    } else {
        (first, second)
    };
    if b == Operand::m {
        "unsafe { utils::enc_MR::encode_MR_m(["@ + hex_list(opcode) + "], &"@ + b.name() + ", "@
            + a.name() + ") }"@
    } else {
        "unsafe { utils::enc_MR::encode_MR(["@ + hex_list(opcode) + "], &"@ + a.name() + ", "@
            + b.name() + ") }"@
    }
}

/// The source of the encoder of a variant of class MR, or why there is
/// none.
pub open spec fn mr_source(mnemonic: Seq<char>, variant: Variant) -> Result<
    Seq<char>,
    VariantError,
> {
    if variant.operands@.len() != 2 {
        Err(VariantError::OperandCount)
    } else if variant.extended_opcode is Some {
        Err(VariantError::UnexpectedExtendedOpcode)
    } else {
        let first = variant.operands@[0];
        let second = variant.operands@[1];
        if is_memory_operand(first) && is_memory_operand(second) {
            Err(VariantError::TwoMemoryOperands)
        } else if is_immediate_operand(first) || is_immediate_operand(second) {
            Err(VariantError::UnsupportedOperands)
        } else {
            Ok(
                unchecked_function(
                    variant.description@,
                    function_name_of(mnemonic, variant.name@) + "_"@ + first.name() + "_"@
                        + second.name(),
                    argument(first) + ", "@ + argument(second),
                    mr_call(first, second, variant.opcode@),
                ),
            )
        }
    }
}

/// The name of a register operand in the names of the rules of class OI.
pub open spec fn oi_register(operand: Operand) -> Seq<char> {
    match operand {
        Operand::reg8 => "r8"@,
        Operand::reg16 => "r16"@,
        Operand::reg32 => "r32"@,
        _ => "r64"@,
    }
}

/// Whether the class OI encodes an immediate of this kind to a register of
/// that kind: the two are of one width.
pub open spec fn is_oi_pair(reg: Operand, imm: Operand) -> bool {
    ||| reg == Operand::reg8 && imm == Operand::imm8
    ||| reg == Operand::reg16 && imm == Operand::imm16
    ||| reg == Operand::reg32 && imm == Operand::imm32
    ||| reg == Operand::reg64 && imm == Operand::imm64
}

/// The source of the encoder of a variant of class OI, or why there is
/// none.
pub open spec fn oi_source(mnemonic: Seq<char>, variant: Variant) -> Result<
    Seq<char>,
    VariantError,
> {
    if variant.operands@.len() != 2 {
        Err(VariantError::OperandCount)
    } else if variant.extended_opcode is Some {
        Err(VariantError::UnexpectedExtendedOpcode)
    } else {
        let reg = variant.operands@[0];
        let imm = variant.operands@[1];
        if !is_oi_pair(reg, imm) {
            Err(VariantError::UnsupportedOperands)
        } else {
            Ok(
                unchecked_function(
                    variant.description@,
                    function_name_of(mnemonic, variant.name@) + "_"@ + reg.name() + "_"@
                        + imm.name(),
                    argument(reg) + ", "@ + argument(imm),
                    "unsafe { utils::enc_OI::encode_OI_"@ + oi_register(reg) + "_"@ + imm.name()
                        + "("@ + hex_list(variant.opcode@) + ", "@ + reg.name() + ", "@
                        + imm.name() + ") }"@,
                ),
            )
        }
    }
}

/// How Rust source writes a truth value.
pub open spec fn truth(flag: bool) -> Seq<char> {
    if flag {
        "true"@
    } else {
        "false"@
    }
}

/// The source of the encoder of a variant of class M, or why there is none.
pub open spec fn m_source(mnemonic: Seq<char>, variant: Variant) -> Result<Seq<char>, VariantError> {
    if variant.operands@.len() != 1 {
        Err(VariantError::OperandCount)
    } else if variant.extended_opcode is None {
        Err(VariantError::MissingExtendedOpcode)
    } else {
        let rm = variant.operands@[0];
        if rm != Operand::rm16 && rm != Operand::rm64 {
            Err(VariantError::UnsupportedOperands)
        } else {
            Ok(
                unchecked_function(
                    variant.description@,
                    function_name_of(mnemonic, variant.name@) + "_"@ + rm.name(),
                    argument(rm),
                    "unsafe { utils::enc_M::encode_M_gpr_or_memory(["@ + hex_list(variant.opcode@)
                        + "], "@ + hex_byte(variant.extended_opcode->0) + ", &"@ + rm.name()
                        + ", "@ + truth(variant.additional_properties.prefix_rex_w) + ", "@
                        + truth(variant.additional_properties.prefix_oso) + ") }"@,
                ),
            )
        }
    }
}

/// The source of the encoder of a variant of class O, or why there is none.
pub open spec fn o_source(mnemonic: Seq<char>, variant: Variant) -> Result<Seq<char>, VariantError> {
    if variant.operands@.len() != 1 {
        Err(VariantError::OperandCount)
    } else if variant.extended_opcode is Some {
        Err(VariantError::UnexpectedExtendedOpcode)
    } else {
        let reg = variant.operands@[0];
        if reg != Operand::reg16 && reg != Operand::reg64 {
            Err(VariantError::UnsupportedOperands)
        } else {
            Ok(
                unchecked_function(
                    variant.description@,
                    function_name_of(mnemonic, variant.name@) + "_"@ + reg.name(),
                    argument(reg),
                    "unsafe { utils::enc_O::encode_O("@ + hex_list(variant.opcode@) + ", "@
                        + reg.name() + ") }"@,
                ),
            )
        }
    }
}

/// The source of the encoder of a variant, or why there is none.
pub open spec fn variant_source(mnemonic: Seq<char>, variant: Variant) -> Result<
    Seq<char>,
    VariantError,
> {
    match variant.encoding {
        OperandEncoding::ZO => Ok(zo_source(mnemonic, variant)),
        OperandEncoding::I => i_source(mnemonic, variant),
        OperandEncoding::MI => mi_source(mnemonic, variant),
        OperandEncoding::MR => mr_source(mnemonic, variant),
        OperandEncoding::O => o_source(mnemonic, variant),
        OperandEncoding::OI => oi_source(mnemonic, variant),
        OperandEncoding::M => m_source(mnemonic, variant),
    }
}

/// What a written source holds, or the error in its place.
pub open spec fn source_view<E>(result: Result<String, E>) -> Result<Seq<char>, E> {
    match result {
        Ok(text) => Ok(text@),
        Err(error) => Err(error),
    }
}

/// The bytes as Rust source writes them, with a comma between one and the
/// next.
pub fn to_hex(value: &[u8]) -> (text: String)
    ensures
        text@ == hex_list(value@),
{
    let mut text = String::new();
    let mut i: usize = 0;
    assert(value@.take(0) =~= Seq::<u8>::empty());
    while i < value.len()
        invariant
            i <= value@.len(),
            text@ == hex_list(value@.take(i as int)),
        decreases value@.len() - i,
    {
        proof {
            assert(value@.take(i + 1).drop_last() =~= value@.take(i as int));
            assert(value@.take(i as int).len() == i);
        }
        if i > 0 {
            text.append(",");
        }
        push_hex_byte(&mut text, value[i]);
        proof {
            if i == 0 {
                assert(text@ =~= hex_byte(value@[0]));
            }
        }
        i += 1;
    }
    assert(value@.take(i as int) =~= value@);
    text
}

/// The name of the encoder of a variant, before the names of its operands.
pub fn function_name(instruction: &Instruction, variant: &Variant) -> (name: String)
    ensures
        name@ == function_name_of(instruction.mnemonic@, variant.name@),
{
    let mut name = String::from_str("encode_");
    name.append(instruction.mnemonic.as_str());
    if variant.name.as_str().is_empty() {
        name
    } else {
        name.append("_");
        name.append(variant.name.as_str());
        name
    }
}

/// The argument that an encoder takes for an operand.
fn argument_text(operand: Operand) -> (text: String)
    ensures
        text@ == argument(operand),
{
    let mut text = String::from_str(operand.as_str());
    text.append(": ");
    match operand {
        Operand::imm8 => text.append("Immediate8"),
        Operand::imm16 => text.append("Immediate16"),
        Operand::imm32 => text.append("Immediate32"),
        Operand::imm64 => text.append("Immediate64"),
        Operand::rm8 | Operand::rm16 | Operand::rm32 | Operand::rm64 => text.append("GPROrMemory"),
        Operand::reg8 | Operand::reg16 | Operand::reg32 | Operand::reg64 => text.append("GPR"),
        Operand::m => text.append("Memory"),
    }
    text
}

/// The arguments that an encoder takes for two operands.
fn arguments_text(first: Operand, second: Operand) -> (text: String)
    ensures
        text@ == argument(first) + ", "@ + argument(second),
{
    let mut text = argument_text(first);
    text.append(", ");
    text.append(argument_text(second).as_str());
    text
}

/// The name of an encoder: the name of the function, then the names of its
/// operands, each after an underscore.
fn name_with_operands(instruction: &Instruction, variant: &Variant) -> (name: String)
    ensures
        variant.operands@.len() == 1 ==> name@ == function_name_of(
            instruction.mnemonic@,
            variant.name@,
        ) + "_"@ + variant.operands@[0].name(),
        variant.operands@.len() == 2 ==> name@ == function_name_of(
            instruction.mnemonic@,
            variant.name@,
        ) + "_"@ + variant.operands@[0].name() + "_"@ + variant.operands@[1].name(),
{
    let mut name = function_name(instruction, variant);
    let mut i: usize = 0;
    while i < variant.operands.len() && i < 2
        invariant
            i <= 2,
            i <= variant.operands@.len(),
            i == 0 ==> name@ == function_name_of(instruction.mnemonic@, variant.name@),
            i == 1 ==> name@ == function_name_of(instruction.mnemonic@, variant.name@) + "_"@
                + variant.operands@[0].name(),
            i == 2 ==> name@ == function_name_of(instruction.mnemonic@, variant.name@) + "_"@
                + variant.operands@[0].name() + "_"@ + variant.operands@[1].name(),
        decreases 2 - i,
    {
        name.append("_");
        name.append(variant.operands[i].as_str());
        i += 1;
    }
    name
}

/// Writes an encoder that any caller may call.
fn safe_function_text(description: &str, name: &str, arguments: &str, body: &str) -> (text:
    String)
    ensures
        text@ == safe_function(description@, name@, arguments@, body@),
{
    let mut text = String::from_str("\n/// ");
    text.append(description);
    text.append("\n#[inline(always)]\npub const fn ");
    text.append(name);
    text.append("(");
    text.append(arguments);
    text.append(") -> EncodedX86_64Instruction {\n    ");
    text.append(body);
    text.append("\n}\n");
    text
}

/// Writes an encoder whose caller answers for the operands.
fn unchecked_function_text(description: &str, name: &str, arguments: &str, body: &str) -> (text:
    String)
    ensures
        text@ == unchecked_function(description@, name@, arguments@, body@),
{
    let mut text = String::from_str("\n/// ");
    text.append(description);
    text.append(
        "\n///\n/// # Safety\n///\n/// The caller has to ensure that the operands are valid,\n/// in particular the function does not check register sizes.\n#[inline(always)]\npub const unsafe fn ",
    );
    text.append(name);
    text.append("(");
    text.append(arguments);
    text.append(") -> EncodedX86_64Instruction {\n    ");
    text.append(body);
    text.append("\n}\n");
    text
}

/// Writes the encoder of a variant without operands.
pub fn generate_variant_zo(instruction: &Instruction, variant: &Variant) -> (text: String)
    ensures
        text@ == zo_source(instruction.mnemonic@, *variant),
{
    let name = function_name(instruction, variant);
    let mut body = String::from_str("unsafe { EncodedX86_64Instruction::from_array([");
    body.append(to_hex(variant.opcode.as_slice()).as_str());
    body.append("]) }");
    safe_function_text(variant.description.as_str(), name.as_str(), "", body.as_str())
}

/// Writes the encoder of a variant of class I.
pub fn generate_variant_i(instruction: &Instruction, variant: &Variant) -> (result: Result<
    String,
    VariantError,
>)
    ensures
        source_view(result) == i_source(instruction.mnemonic@, *variant),
{
    if variant.operands.len() != 1 {
        return Err(VariantError::OperandCount);
    }
    let operand = variant.operands[0];
    let has_oso_prefix = variant.additional_properties.prefix_oso;
    let has_rex_w_prefix = variant.additional_properties.prefix_rex_w;
    let mut body = String::from_str("unsafe { utils::enc_I::");
    match operand {
        Operand::imm8 => {
            body.append("encode_I_");
            body.append(operand.as_str());
        },
        Operand::imm16 => {
            if has_oso_prefix {
                body.append("encode_I_imm16_operand_size_override");
            } else {
                body.append("encode_I_");
                body.append(operand.as_str());
            }
        },
        Operand::imm32 => {
            if has_rex_w_prefix {
                body.append("encode_I_imm32_prefix_rex_w");
            } else {
                body.append("encode_I_");
                body.append(operand.as_str());
            }
        },
        _ => {
            return Err(VariantError::UnsupportedOperands);
        },
    }
    assert(body@ =~= "unsafe { utils::enc_I::"@ + i_rule(operand, *variant));
    body.append("([");
    body.append(to_hex(variant.opcode.as_slice()).as_str());
    body.append("], ");
    body.append(operand.as_str());
    body.append(") }");
    let name = name_with_operands(instruction, variant);
    Ok(
        safe_function_text(
            variant.description.as_str(),
            name.as_str(),
            argument_text(operand).as_str(),
            body.as_str(),
        ),
    )
}

/// Whether the class MI encodes an immediate of this kind to an operand of
/// that kind.
fn check_mi_pair(rm: Operand, imm: Operand) -> (valid: bool)
    ensures
        valid == is_mi_pair(rm, imm),
{
    match (rm, imm) {
        (Operand::rm8, Operand::imm8) => true,
        (Operand::rm16, Operand::imm16) => true,
        (Operand::rm32, Operand::imm32) => true,
        (Operand::rm64, Operand::imm32) => true,
        (Operand::rm16, Operand::imm8) => true,
        (Operand::rm32, Operand::imm8) => true,
        (Operand::rm64, Operand::imm8) => true,
        _ => false,
    }
}

/// Writes the encoder of a variant of class MI.
pub fn generate_variant_mi(instruction: &Instruction, variant: &Variant) -> (result: Result<
    String,
    VariantError,
>)
    ensures
        source_view(result) == mi_source(instruction.mnemonic@, *variant),
{
    if variant.operands.len() != 2 {
        return Err(VariantError::OperandCount);
    }
    let extended_opcode = match variant.extended_opcode {
        Some(extended_opcode) => extended_opcode,
        None => {
            return Err(VariantError::MissingExtendedOpcode);
        },
    };
    let rm_operand = variant.operands[0];
    let imm_operand = variant.operands[1];
    if !check_mi_pair(rm_operand, imm_operand) {
        return Err(VariantError::UnsupportedOperands);
    }
    let mut body = String::from_str("unsafe { utils::enc_MI::encode_MI_");
    body.append(rm_operand.as_str());
    body.append("_");
    body.append(imm_operand.as_str());
    body.append("([");
    body.append(to_hex(variant.opcode.as_slice()).as_str());
    body.append("], ");
    push_hex_byte(&mut body, extended_opcode);
    body.append(", &");
    body.append(rm_operand.as_str());
    body.append(", ");
    body.append(imm_operand.as_str());
    body.append(") }");
    let name = name_with_operands(instruction, variant);
    Ok(
        unchecked_function_text(
            variant.description.as_str(),
            name.as_str(),
            arguments_text(rm_operand, imm_operand).as_str(),
            body.as_str(),
        ),
    )
}

/// Whether an operand is a register or a place in memory.
fn check_memory_operand(operand: Operand) -> (memory: bool)
    ensures
        memory == is_memory_operand(operand),
{
    match operand {
        Operand::rm8 | Operand::rm16 | Operand::rm32 | Operand::rm64 => true,
        _ => false,
    }
}

/// Whether an operand is an immediate.
fn check_immediate_operand(operand: Operand) -> (immediate: bool)
    ensures
        immediate == is_immediate_operand(operand),
{
    match operand {
        Operand::imm8 | Operand::imm16 | Operand::imm32 | Operand::imm64 => true,
        _ => false,
    }
}

/// Writes the encoder of a variant of class MR.
pub fn generate_variant_mr(instruction: &Instruction, variant: &Variant) -> (result: Result<
    String,
    VariantError,
>)
    ensures
        source_view(result) == mr_source(instruction.mnemonic@, *variant),
{
    if variant.operands.len() != 2 {
        return Err(VariantError::OperandCount);
    }
    if variant.extended_opcode.is_some() {
        return Err(VariantError::UnexpectedExtendedOpcode);
    }
    let first_operand = variant.operands[0];
    let second_operand = variant.operands[1];
    if check_memory_operand(first_operand) && check_memory_operand(second_operand) {
        return Err(VariantError::TwoMemoryOperands);
    }
    if check_immediate_operand(first_operand) || check_immediate_operand(second_operand) {
        return Err(VariantError::UnsupportedOperands);
    }
    let (first_arg, second_arg) = if check_memory_operand(second_operand) {
        (second_operand, first_operand)
    } else {
        (first_operand, second_operand)
    };
    let mut body = if second_arg == Operand::m {
        let mut body = String::from_str("unsafe { utils::enc_MR::encode_MR_m([");
        body.append(to_hex(variant.opcode.as_slice()).as_str());
        body.append("], &");
        body.append(second_arg.as_str());
        body.append(", ");
        body.append(first_arg.as_str());
        body
    } else {
        let mut body = String::from_str("unsafe { utils::enc_MR::encode_MR([");
        body.append(to_hex(variant.opcode.as_slice()).as_str());
        body.append("], &");
        body.append(first_arg.as_str());
        body.append(", ");
        body.append(second_arg.as_str());
        body
    };
    body.append(") }");
    let name = name_with_operands(instruction, variant);
    Ok(
        unchecked_function_text(
            variant.description.as_str(),
            name.as_str(),
            arguments_text(first_operand, second_operand).as_str(),
            body.as_str(),
        ),
    )
}

/// Whether the class OI encodes an immediate of this kind to a register of
/// that kind.
fn check_oi_pair(reg: Operand, imm: Operand) -> (valid: bool)
    ensures
        valid == is_oi_pair(reg, imm),
{
    match (reg, imm) {
        (Operand::reg8, Operand::imm8) => true,
        (Operand::reg16, Operand::imm16) => true,
        (Operand::reg32, Operand::imm32) => true,
        (Operand::reg64, Operand::imm64) => true,
        _ => false,
    }
}

/// Writes the encoder of a variant of class OI.
pub fn generate_variant_oi(instruction: &Instruction, variant: &Variant) -> (result: Result<
    String,
    VariantError,
>)
    ensures
        source_view(result) == oi_source(instruction.mnemonic@, *variant),
{
    if variant.operands.len() != 2 {
        return Err(VariantError::OperandCount);
    }
    if variant.extended_opcode.is_some() {
        return Err(VariantError::UnexpectedExtendedOpcode);
    }
    let reg_operand = variant.operands[0];
    let imm_operand = variant.operands[1];
    if !check_oi_pair(reg_operand, imm_operand) {
        return Err(VariantError::UnsupportedOperands);
    }
    let mut body = String::from_str("unsafe { utils::enc_OI::encode_OI_");
    match reg_operand {
        Operand::reg8 => body.append("r8"),
        Operand::reg16 => body.append("r16"),
        Operand::reg32 => body.append("r32"),
        _ => body.append("r64"),
    }
    body.append("_");
    body.append(imm_operand.as_str());
    body.append("(");
    body.append(to_hex(variant.opcode.as_slice()).as_str());
    body.append(", ");
    body.append(reg_operand.as_str());
    body.append(", ");
    body.append(imm_operand.as_str());
    body.append(") }");
    let name = name_with_operands(instruction, variant);
    Ok(
        unchecked_function_text(
            variant.description.as_str(),
            name.as_str(),
            arguments_text(reg_operand, imm_operand).as_str(),
            body.as_str(),
        ),
    )
}

/// How Rust source writes a truth value.
fn truth_text(flag: bool) -> (text: &'static str)
    ensures
        text@ == truth(flag),
{
    if flag {
        "true"
    } else {
        "false"
    }
}

/// Writes the encoder of a variant of class M.
pub fn generate_variant_m(instruction: &Instruction, variant: &Variant) -> (result: Result<
    String,
    VariantError,
>)
    ensures
        source_view(result) == m_source(instruction.mnemonic@, *variant),
{
    if variant.operands.len() != 1 {
        return Err(VariantError::OperandCount);
    }
    let extended_opcode = match variant.extended_opcode {
        Some(extended_opcode) => extended_opcode,
        None => {
            return Err(VariantError::MissingExtendedOpcode);
        },
    };
    let rm_operand = variant.operands[0];
    if rm_operand != Operand::rm16 && rm_operand != Operand::rm64 {
        return Err(VariantError::UnsupportedOperands);
    }
    let mut body = String::from_str("unsafe { utils::enc_M::encode_M_gpr_or_memory([");
    body.append(to_hex(variant.opcode.as_slice()).as_str());
    body.append("], ");
    push_hex_byte(&mut body, extended_opcode);
    body.append(", &");
    body.append(rm_operand.as_str());
    body.append(", ");
    body.append(truth_text(variant.additional_properties.prefix_rex_w));
    body.append(", ");
    body.append(truth_text(variant.additional_properties.prefix_oso));
    body.append(") }");
    let name = name_with_operands(instruction, variant);
    Ok(
        unchecked_function_text(
            variant.description.as_str(),
            name.as_str(),
            argument_text(rm_operand).as_str(),
            body.as_str(),
        ),
    )
}

/// Writes the encoder of a variant of class O.
pub fn generate_variant_o(instruction: &Instruction, variant: &Variant) -> (result: Result<
    String,
    VariantError,
>)
    ensures
        source_view(result) == o_source(instruction.mnemonic@, *variant),
{
    if variant.operands.len() != 1 {
        return Err(VariantError::OperandCount);
    }
    if variant.extended_opcode.is_some() {
        return Err(VariantError::UnexpectedExtendedOpcode);
    }
    let reg_operand = variant.operands[0];
    if reg_operand != Operand::reg16 && reg_operand != Operand::reg64 {
        return Err(VariantError::UnsupportedOperands);
    }
    let mut body = String::from_str("unsafe { utils::enc_O::encode_O(");
    body.append(to_hex(variant.opcode.as_slice()).as_str());
    body.append(", ");
    body.append(reg_operand.as_str());
    body.append(") }");
    let name = name_with_operands(instruction, variant);
    Ok(
        unchecked_function_text(
            variant.description.as_str(),
            name.as_str(),
            argument_text(reg_operand).as_str(),
            body.as_str(),
        ),
    )
}

/// Writes the encoder of a variant, by the rule of its class.
pub fn generate_variant(instruction: &Instruction, variant: &Variant) -> (result: Result<
    String,
    VariantError,
>)
    ensures
        source_view(result) == variant_source(instruction.mnemonic@, *variant),
{
    match variant.encoding {
        OperandEncoding::ZO => Ok(generate_variant_zo(instruction, variant)),
        OperandEncoding::I => generate_variant_i(instruction, variant),
        OperandEncoding::MI => generate_variant_mi(instruction, variant),
        OperandEncoding::MR => generate_variant_mr(instruction, variant),
        OperandEncoding::O => generate_variant_o(instruction, variant),
        OperandEncoding::OI => generate_variant_oi(instruction, variant),
        OperandEncoding::M => generate_variant_m(instruction, variant),
    }
}

/// The text of a source; empty where there is an error in its place.
pub open spec fn text_of(result: Result<Seq<char>, VariantError>) -> Seq<char> {
    match result {
        Ok(text) => text,
        Err(_) => Seq::empty(),
    }
}

/// The sources of the encoders of the given variants, one after the other.
pub open spec fn variants_source(mnemonic: Seq<char>, variants: Seq<Variant>) -> Seq<char>
    decreases variants.len(),
{
    if variants.len() == 0 {
        Seq::empty()
    } else {
        variants_source(mnemonic, variants.drop_last()) + text_of(
            variant_source(mnemonic, variants.last()),
        )
    }
}

/// Whether an encoder can be written for each variant of an instruction.
pub open spec fn instruction_is_valid(instruction: Instruction) -> bool {
    forall|j: int|
        0 <= j < instruction.variant_set.variants@.len() ==> (#[trigger] variant_source(
            instruction.mnemonic@,
            instruction.variant_set.variants@[j],
        )) is Ok
}

/// Whether an encoder can be written for each variant of each instruction.
pub open spec fn set_is_valid(instruction_set: InstructionSet) -> bool {
    forall|i: int|
        0 <= i < instruction_set.instructions@.len() ==> instruction_is_valid(
            #[trigger] instruction_set.instructions@[i],
        )
}

/// The encoders of the instructions that have one variant only, in the
/// order of the table.
pub open spec fn singleton_sources(instructions: Seq<Instruction>) -> Seq<char>
    decreases instructions.len(),
{
    if instructions.len() == 0 {
        Seq::empty()
    } else {
        let last = instructions.last();
        singleton_sources(instructions.drop_last()) + (if last.variant_set.variants@.len() == 1 {
            variants_source(last.mnemonic@, last.variant_set.variants@)
        } else {
            Seq::empty()
        })
    }
}

/// The module that holds the encoders of an instruction with several
/// variants, or with none.
pub open spec fn module_source(instruction: Instruction) -> Seq<char> {
    "/// Holds encoders for variants of `"@ + instruction.mnemonic@ + "` instruction.\npub mod "@
        + instruction.mnemonic@ + " { use super::*;\n\n"@ + variants_source(
        instruction.mnemonic@,
        instruction.variant_set.variants@,
    ) + " }\n\n"@
}

/// The modules of the instructions that do not have one variant only, in
/// the order of the table.
pub open spec fn module_sources(instructions: Seq<Instruction>) -> Seq<char>
    decreases instructions.len(),
{
    if instructions.len() == 0 {
        Seq::empty()
    } else {
        let last = instructions.last();
        module_sources(instructions.drop_last()) + (if last.variant_set.variants@.len() == 1 {
            Seq::empty()
        } else {
            module_source(last)
        })
    }
}

/// The source of all encoders: the module `singleton` with the encoders of
/// the instructions that have one variant, then one module for each other
/// instruction.
pub open spec fn content_source(instruction_set: InstructionSet) -> Seq<char> {
    "/// Holds encoders for instructions that have only one variant.\npub mod singleton { use super::*;\n\n"@
        + singleton_sources(instruction_set.instructions@) + "}\n\n"@ + module_sources(
        instruction_set.instructions@,
    )
}

/// Whether the encoder of the variant at `(i, j)` is written before that of
/// the variant at `(k, l)`: the instructions with one variant go first;
/// among them, and among the others, the order of the table holds.
pub open spec fn is_written_before(
    instructions: Seq<Instruction>,
    i: int,
    j: int,
    k: int,
    l: int,
) -> bool {
    let first_is_single = instructions[i].variant_set.variants@.len() == 1;
    let second_is_single = instructions[k].variant_set.variants@.len() == 1;
    if first_is_single != second_is_single {
        first_is_single
    } else {
        i < k || (i == k && j < l)
    }
}

/// What `generate_content` and `generate_enc` owe for a table: the text
/// where every variant has an encoder; else the first variant, in the order
/// of writing, that has none, with its place and with what is wrong with
/// it.
pub open spec fn is_source_of(
    result: Result<String, InvalidVariant>,
    instruction_set: InstructionSet,
    text: Seq<char>,
) -> bool {
    let all = instruction_set.instructions@;
    match result {
        Ok(written) => set_is_valid(instruction_set) && written@ == text,
        Err(invalid) => {
            &&& !set_is_valid(instruction_set)
            &&& invalid.instruction < all.len()
            &&& invalid.variant < all[invalid.instruction as int].variant_set.variants@.len()
            &&& variant_source(
                all[invalid.instruction as int].mnemonic@,
                all[invalid.instruction as int].variant_set.variants@[invalid.variant as int],
            ) == Err::<Seq<char>, VariantError>(invalid.error)
            &&& forall|i: int, j: int|
                0 <= i < all.len() && 0 <= j < all[i].variant_set.variants@.len()
                    && is_written_before(
                    all,
                    i,
                    j,
                    invalid.instruction as int,
                    invalid.variant as int,
                ) ==> (#[trigger] variant_source(
                    all[i].mnemonic@,
                    all[i].variant_set.variants@[j],
                )) is Ok
        },
    }
}

/// Writes the encoders of the variants of one instruction. Where one of
/// them has none, tells its place and what is wrong with it.
fn generate_variants(instruction: &Instruction) -> (result: Result<String, (usize, VariantError)>)
    ensures
        result is Ok <==> instruction_is_valid(*instruction),
        result matches Ok(text) ==> text@ == variants_source(
            instruction.mnemonic@,
            instruction.variant_set.variants@,
        ),
        result matches Err((place, error)) ==> place < instruction.variant_set.variants@.len()
            && variant_source(instruction.mnemonic@, instruction.variant_set.variants@[place as int])
            == Err::<Seq<char>, VariantError>(error),
        result matches Err((place, _)) ==> forall|k: int|
            0 <= k < place ==> (#[trigger] variant_source(
                instruction.mnemonic@,
                instruction.variant_set.variants@[k],
            )) is Ok,
{
    let mut variants = String::new();
    let mut j: usize = 0;
    let ghost all = instruction.variant_set.variants@;
    assert(all.take(0) =~= Seq::<Variant>::empty());
    while j < instruction.variant_set.variants.len()
        invariant
            j <= all.len(),
            all == instruction.variant_set.variants@,
            variants@ == variants_source(instruction.mnemonic@, all.take(j as int)),
            forall|k: int|
                0 <= k < j ==> (#[trigger] variant_source(instruction.mnemonic@, all[k])) is Ok,
        decreases all.len() - j,
    {
        proof {
            assert(all.take(j + 1).drop_last() =~= all.take(j as int));
        }
        match generate_variant(instruction, &instruction.variant_set.variants[j]) {
            Ok(text) => {
                variants.append(text.as_str());
            },
            Err(error) => {
                return Err((j, error));
            },
        }
        j += 1;
    }
    assert(all.take(j as int) =~= all);
    Ok(variants)
}

/// The encoders of the first instructions are those of the instructions
/// before the last of them, and then of that one.
proof fn lemma_sources_step(all: Seq<Instruction>, i: int)
    requires
        0 <= i < all.len(),
    ensures
        singleton_sources(all.take(i + 1)) == singleton_sources(all.take(i)) + (if all[i].variant_set.variants@.len()
            == 1 {
            variants_source(all[i].mnemonic@, all[i].variant_set.variants@)
        } else {
            Seq::empty()
        }),
        module_sources(all.take(i + 1)) == module_sources(all.take(i)) + (if all[i].variant_set.variants@.len()
            == 1 {
            Seq::empty()
        } else {
            module_source(all[i])
        }),
{
    assert(all.take(i + 1).drop_last() =~= all.take(i));
    assert(all.take(i + 1).last() == all[i]);
}

/// Appends the encoders of the instructions that have one variant only.
fn generate_singletons(instruction_set: &InstructionSet, output: &mut String) -> (result: Result<
    (),
    InvalidVariant,
>)
    ensures
        result is Ok ==> final(output)@ == old(output)@ + singleton_sources(
            instruction_set.instructions@,
        ),
        result is Ok ==> forall|k: int|
            0 <= k < instruction_set.instructions@.len()
                && instruction_set.instructions@[k].variant_set.variants@.len() == 1
                ==> instruction_is_valid(#[trigger] instruction_set.instructions@[k]),
        result matches Err(invalid) ==> is_source_of(
            Err(invalid),
            *instruction_set,
            Seq::empty(),
        ),
{
    let ghost all = instruction_set.instructions@;
    let ghost head = output@;
    let mut i: usize = 0;
    assert(all.take(0) =~= Seq::<Instruction>::empty());
    assert(output@ =~= head + singleton_sources(all.take(0)));
    while i < instruction_set.instructions.len()
        invariant
            i <= all.len(),
            all == instruction_set.instructions@,
            output@ == head + singleton_sources(all.take(i as int)),
            forall|k: int|
                0 <= k < i && all[k].variant_set.variants@.len() == 1 ==> instruction_is_valid(
                    #[trigger] all[k],
                ),
        decreases all.len() - i,
    {
        proof {
            lemma_sources_step(all, i as int);
        }
        let instruction = &instruction_set.instructions[i];
        if instruction.variant_set.variants.len() == 1 {
            match generate_variants(instruction) {
                Ok(text) => {
                    output.append(text.as_str());
                },
                Err((variant, error)) => {
                    assert(!instruction_is_valid(all[i as int]));
                    return Err(InvalidVariant { instruction: i, variant, error });
                },
            }
        }
        assert(output@ =~= head + singleton_sources(all.take(i + 1)));
        i += 1;
    }
    assert(all.take(i as int) =~= all);
    Ok(())
}

/// Appends the modules of the instructions that do not have one variant
/// only.
fn generate_modules(instruction_set: &InstructionSet, output: &mut String) -> (result: Result<
    (),
    InvalidVariant,
>)
    requires
        forall|k: int|
            0 <= k < instruction_set.instructions@.len()
                && instruction_set.instructions@[k].variant_set.variants@.len() == 1
                ==> instruction_is_valid(#[trigger] instruction_set.instructions@[k]),
    ensures
        result is Ok ==> final(output)@ == old(output)@ + module_sources(
            instruction_set.instructions@,
        ),
        result is Ok ==> forall|k: int|
            0 <= k < instruction_set.instructions@.len()
                && instruction_set.instructions@[k].variant_set.variants@.len() != 1
                ==> instruction_is_valid(#[trigger] instruction_set.instructions@[k]),
        result matches Err(invalid) ==> is_source_of(
            Err(invalid),
            *instruction_set,
            Seq::empty(),
        ),
{
    let ghost all = instruction_set.instructions@;
    let ghost head = output@;
    let mut i: usize = 0;
    assert(all.take(0) =~= Seq::<Instruction>::empty());
    assert(output@ =~= head + module_sources(all.take(0)));
    while i < instruction_set.instructions.len()
        invariant
            i <= all.len(),
            all == instruction_set.instructions@,
            output@ == head + module_sources(all.take(i as int)),
            forall|k: int|
                0 <= k < all.len() && all[k].variant_set.variants@.len() == 1
                    ==> instruction_is_valid(#[trigger] all[k]),
            forall|k: int|
                0 <= k < i && all[k].variant_set.variants@.len() != 1 ==> instruction_is_valid(
                    #[trigger] all[k],
                ),
        decreases all.len() - i,
    {
        proof {
            lemma_sources_step(all, i as int);
        }
        let instruction = &instruction_set.instructions[i];
        if instruction.variant_set.variants.len() != 1 {
            match generate_variants(instruction) {
                Ok(text) => {
                    let mut module = String::from_str("/// Holds encoders for variants of `");
                    module.append(instruction.mnemonic.as_str());
                    module.append("` instruction.\npub mod ");
                    module.append(instruction.mnemonic.as_str());
                    module.append(" { use super::*;\n\n");
                    module.append(text.as_str());
                    module.append(" }\n\n");
                    output.append(module.as_str());
                },
                Err((variant, error)) => {
                    assert(!instruction_is_valid(all[i as int]));
                    return Err(InvalidVariant { instruction: i, variant, error });
                },
            }
        }
        assert(output@ =~= head + module_sources(all.take(i + 1)));
        i += 1;
    }
    assert(all.take(i as int) =~= all);
    Ok(())
}

/// Writes all encoders: the module `singleton`, then one module for each
/// instruction that does not have one variant only.
pub fn generate_content(instruction_set: &InstructionSet) -> (result: Result<
    String,
    InvalidVariant,
>)
    ensures
        is_source_of(result, *instruction_set, content_source(*instruction_set)),
{
    let mut output = String::from_str(
        "/// Holds encoders for instructions that have only one variant.\npub mod singleton { use super::*;\n\n",
    );
    match generate_singletons(instruction_set, &mut output) {
        Ok(()) => {},
        Err(invalid) => {
            return Err(invalid);
        },
    }
    output.append("}\n\n");
    match generate_modules(instruction_set, &mut output) {
        Ok(()) => {},
        Err(invalid) => {
            return Err(invalid);
        },
    }
    Ok(output)
}

/// What stands between the header and the encoders: the lints that the
/// written source allows itself, and its imports.
pub open spec fn prelude() -> Seq<char> {
    "#![allow(non_snake_case)]\n#![allow(unused_imports)]\n#![allow(clippy::needless_pass_by_value)]\n#![allow(clippy::wildcard_imports)]\n\nuse crate::{{\n    models::{{GPR, GPROrMemory, Memory, EncodedX86_64Instruction, Immediate8, Immediate16, Immediate32, Immediate64}},\n}};\nuse crate::encoders::utils;"@
}

/// The source file of the encoders: the header, a note on what the file
/// holds, the prelude, and the encoders.
pub open spec fn enc_source(header: Seq<char>, instruction_set: InstructionSet) -> Seq<char> {
    "\n"@ + header
        + "\n//!\n//! # Content\n//! \n//! Holds encoders for instructions valid in 64-bit X86 instruction set.\n"@
        + prelude() + "\n\n"@ + content_source(instruction_set)
}

/// Writes the source file of the encoders, which starts with `header`.
pub fn generate_enc(header: &str, instruction_set: &InstructionSet) -> (result: Result<
    String,
    InvalidVariant,
>)
    ensures
        is_source_of(result, *instruction_set, enc_source(header@, *instruction_set)),
{
    let enc_content = match generate_content(instruction_set) {
        Ok(enc_content) => enc_content,
        Err(invalid) => {
            return Err(invalid);
        },
    };
    let mut enc_output = String::from_str("\n");
    enc_output.append(header);
    enc_output.append(
        "\n//!\n//! # Content\n//! \n//! Holds encoders for instructions valid in 64-bit X86 instruction set.\n",
    );
    enc_output.append(
        "#![allow(non_snake_case)]\n#![allow(unused_imports)]\n#![allow(clippy::needless_pass_by_value)]\n#![allow(clippy::wildcard_imports)]\n\nuse crate::{{\n    models::{{GPR, GPROrMemory, Memory, EncodedX86_64Instruction, Immediate8, Immediate16, Immediate32, Immediate64}},\n}};\nuse crate::encoders::utils;",
    );
    enc_output.append("\n\n");
    enc_output.append(enc_content.as_str());
    Ok(enc_output)
}

} // verus!
