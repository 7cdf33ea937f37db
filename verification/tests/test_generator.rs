use osom_encoders_x86_64::generator::enc::{
    function_name, generate_content, generate_enc, generate_variant, generate_variant_i,
    generate_variant_m, generate_variant_mi, generate_variant_mr, generate_variant_o,
    generate_variant_oi, generate_variant_zo, to_hex, InvalidVariant, VariantError,
};
use osom_encoders_x86_64::generator::mnemonics::{generate_mnemonics_enum, MnemonicError};
use osom_encoders_x86_64::generator::models::{
    deserialize_alpha_string, deserialize_opcode, deserialize_operand_encoding,
    deserialize_operands, deserialize_variant_property, Instruction, InstructionSet,
    InvalidVariantFlagError, Operand, OperandEncoding, TableError, Variant, VariantProperty,
    VariantSet,
};
use osom_encoders_x86_64::generator::text::{
    check_whitespace, equals, parse_hex_digit, push_decimal, push_hex_byte, split_text, trim,
};
use osom_encoders_x86_64::generator::{generate, GenerationError};

fn variant(opcode: &[u8], encoding: OperandEncoding, operands: &[Operand]) -> Variant {
    Variant {
        opcode: opcode.to_vec(),
        name: String::new(),
        extended_opcode: None,
        operands: operands.to_vec(),
        encoding,
        additional_properties: VariantProperty::default(),
        description: String::from("Does it."),
    }
}

fn instruction(mnemonic: &str, variants: Vec<Variant>) -> Instruction {
    Instruction { mnemonic: String::from(mnemonic), variant_set: VariantSet { variants } }
}

const UNCHECKED: &str = "\n/// Does it.\n///\n/// # Safety\n///\n/// The caller has to ensure that the operands are valid,\n/// in particular the function does not check register sizes.\n#[inline(always)]\npub const unsafe fn ";

#[test]
fn test_text_helpers() {
    assert!(equals("abc", "abc"));
    assert!(!equals("abc", "abd"));
    assert!(!equals("abc", "ab"));
    assert!(equals("", ""));
    assert_eq!(trim("  a b \t\n"), "a b");
    assert_eq!(trim("\u{3000}x\u{A0}"), "x");
    assert_eq!(trim("   "), "");
    assert_eq!(trim(""), "");
    assert_eq!(trim("x"), "x");
    for c in ['\u{0}', ' ', '\t', '\n', '\u{B}', '\u{C}', '\r', 'a', '\u{85}', '\u{A0}', '\u{1680}',
        '\u{2000}', '\u{2005}', '\u{200A}', '\u{200B}', '\u{2028}', '\u{2029}', '\u{202F}',
        '\u{205F}', '\u{3000}', '\u{FEFF}', 'é']
    {
        assert_eq!(check_whitespace(c), c.is_whitespace());
    }
    assert_eq!(split_text("a,b,,c", ','), ["a", "b", "", "c"]);
    assert_eq!(split_text("", ','), [""]);
    assert_eq!(split_text(",", ','), ["", ""]);
    assert_eq!(split_text("REX.W+B8", '+'), ["REX.W", "B8"]);
    assert_eq!(split_text("é+ü", '+'), ["é", "ü"]);
    assert_eq!(parse_hex_digit('0'), Some(0));
    assert_eq!(parse_hex_digit('9'), Some(9));
    assert_eq!(parse_hex_digit('a'), Some(10));
    assert_eq!(parse_hex_digit('F'), Some(15));
    assert_eq!(parse_hex_digit('g'), None);
    assert_eq!(parse_hex_digit('+'), None);
    let mut text = String::from("x");
    push_hex_byte(&mut text, 0x0A);
    push_decimal(&mut text, 0);
    push_decimal(&mut text, 7);
    push_decimal(&mut text, 10);
    push_decimal(&mut text, 1234567890);
    assert_eq!(text, "x0x0A07101234567890");
}

#[test]
fn test_to_hex() {
    assert_eq!(to_hex(&[]), "");
    assert_eq!(to_hex(&[0xC3]), "0xC3");
    assert_eq!(to_hex(&[0x0F, 0xA2]), "0x0F,0xA2");
    assert_eq!(to_hex(&[0x00, 0x09, 0xAB, 0xFF]), "0x00,0x09,0xAB,0xFF");
}

#[test]
fn test_deserialize_opcode() {
    assert_eq!(deserialize_opcode("C3"), Ok(vec![0xC3]));
    assert_eq!(deserialize_opcode(" 0fa2 "), Ok(vec![0x0F, 0xA2]));
    assert_eq!(deserialize_opcode("01020304"), Ok(vec![1, 2, 3, 4]));
    assert_eq!(deserialize_opcode(""), Ok(vec![]));
    assert_eq!(deserialize_opcode("REX.W+05"), Ok(vec![0x48, 0x05]));
    assert_eq!(deserialize_opcode("O+05"), Ok(vec![0x66, 0x05]));
    assert_eq!(deserialize_opcode(" O + REX.W + 0F1F "), Ok(vec![0x66, 0x48, 0x0F, 0x1F]));
    assert_eq!(deserialize_opcode("REX+05"), Err(TableError::InvalidOpcodePrefix));
    assert_eq!(deserialize_opcode("+05"), Err(TableError::InvalidOpcodePrefix));
    assert_eq!(deserialize_opcode("o+05"), Err(TableError::InvalidOpcodePrefix));
    assert_eq!(deserialize_opcode("C"), Err(TableError::OddOpcodeLength));
    assert_eq!(deserialize_opcode("C3C"), Err(TableError::OddOpcodeLength));
    assert_eq!(deserialize_opcode("0102030405"), Err(TableError::OpcodeTooLong));
    assert_eq!(deserialize_opcode("G3"), Err(TableError::InvalidOpcodeHex));
    assert_eq!(deserialize_opcode("C3 C3"), Err(TableError::OddOpcodeLength));
    assert_eq!(deserialize_opcode("C3 C"), Err(TableError::InvalidOpcodeHex));
    assert_eq!(deserialize_opcode("0x"), Err(TableError::InvalidOpcodeHex));
    assert_eq!(deserialize_opcode("X+C"), Err(TableError::InvalidOpcodePrefix));
}

#[test]
fn test_deserialize_alpha_string() {
    assert_eq!(deserialize_alpha_string("mov"), Ok(String::from("mov")));
    assert_eq!(deserialize_alpha_string("  int3\n"), Ok(String::from("int3")));
    assert_eq!(deserialize_alpha_string(""), Ok(String::new()));
    assert_eq!(deserialize_alpha_string("   "), Ok(String::new()));
    assert_eq!(deserialize_alpha_string("é1"), Ok(String::from("é1")));
    assert_eq!(deserialize_alpha_string("a"), Ok(String::from("a")));
    assert_eq!(deserialize_alpha_string("3int"), Err(TableError::InvalidAlphaString));
    assert_eq!(deserialize_alpha_string("_a"), Err(TableError::InvalidAlphaString));
    assert_eq!(deserialize_alpha_string("a_b"), Err(TableError::InvalidAlphaString));
    assert_eq!(deserialize_alpha_string("a b"), Err(TableError::InvalidAlphaString));
    assert_eq!(deserialize_alpha_string("ab-"), Err(TableError::InvalidAlphaString));
}

#[test]
fn test_deserialize_operands() {
    assert_eq!(deserialize_operands("imm8"), Ok(vec![Operand::imm8]));
    assert_eq!(deserialize_operands(" rm64 , imm32 "), Ok(vec![Operand::rm64, Operand::imm32]));
    assert_eq!(deserialize_operands("reg16,m"), Ok(vec![Operand::reg16, Operand::m]));
    assert_eq!(deserialize_operands(""), Err(TableError::InvalidOperandName));
    assert_eq!(deserialize_operands("rm8,"), Err(TableError::InvalidOperandName));
    assert_eq!(deserialize_operands("r8"), Err(TableError::InvalidOperandName));
    assert_eq!(deserialize_operands("IMM8"), Err(TableError::InvalidOperandName));
    let all = [
        Operand::imm8,
        Operand::imm16,
        Operand::imm32,
        Operand::imm64,
        Operand::rm8,
        Operand::rm16,
        Operand::rm32,
        Operand::rm64,
        Operand::reg8,
        Operand::reg16,
        Operand::reg32,
        Operand::reg64,
        Operand::m,
    ];
    for operand in all {
        assert_eq!(Operand::from_name(operand.as_str()), Some(operand));
        assert_eq!(format!("{:?}", operand), operand.as_str());
    }
    assert_eq!(Operand::from_name("imm"), None);
}

#[test]
fn test_deserialize_variant_property() {
    let none = VariantProperty::Empty();
    assert_eq!(deserialize_variant_property(""), Ok(none));
    assert_eq!(deserialize_variant_property("None"), Ok(none));
    assert_eq!(deserialize_variant_property(" PrefixRexW "), Ok(VariantProperty::PrefixRexW()));
    assert_eq!(
        deserialize_variant_property("PrefixRex, PrefixOSO"),
        Ok(VariantProperty::PrefixRex().union(VariantProperty::PrefixOSO()))
    );
    assert_eq!(deserialize_variant_property("PrefixOSO,"), Ok(VariantProperty::PrefixOSO()));
    assert_eq!(deserialize_variant_property("Prefix"), Err(TableError::InvalidFlag));
    assert_eq!(deserialize_variant_property("PrefixRex;PrefixOSO"), Err(TableError::InvalidFlag));
    assert_eq!(VariantProperty::try_from("prefixrex"), Err(InvalidVariantFlagError));
    assert_eq!(VariantProperty::try_from("PrefixRex"), Ok(VariantProperty::PrefixRex()));
    let both = VariantProperty::PrefixRexW().union(VariantProperty::PrefixOSO());
    assert!(both.contains(VariantProperty::PrefixRexW()));
    assert!(both.contains(VariantProperty::PrefixOSO()));
    assert!(both.contains(none));
    assert!(!both.contains(VariantProperty::PrefixRex()));
    assert!(!none.contains(both));
    assert_eq!(VariantProperty::default(), none);
}

#[test]
fn test_deserialize_operand_encoding() {
    assert_eq!(deserialize_operand_encoding("ZO"), Ok(OperandEncoding::ZO));
    assert_eq!(deserialize_operand_encoding(" I "), Ok(OperandEncoding::I));
    assert_eq!(deserialize_operand_encoding("MI"), Ok(OperandEncoding::MI));
    assert_eq!(deserialize_operand_encoding("MR"), Ok(OperandEncoding::MR));
    assert_eq!(deserialize_operand_encoding("O"), Ok(OperandEncoding::O));
    assert_eq!(deserialize_operand_encoding("OI"), Ok(OperandEncoding::OI));
    assert_eq!(deserialize_operand_encoding("M"), Ok(OperandEncoding::M));
    assert_eq!(deserialize_operand_encoding("RM"), Err(TableError::InvalidOperandEncoding));
    assert_eq!(deserialize_operand_encoding(""), Err(TableError::InvalidOperandEncoding));
    assert_eq!(OperandEncoding::from_name(OperandEncoding::OI.as_str()), Some(OperandEncoding::OI));
}

#[test]
fn test_function_name() {
    let ret = instruction("ret", vec![]);
    let mut v = variant(&[0xC3], OperandEncoding::ZO, &[]);
    assert_eq!(function_name(&ret, &v), "encode_ret");
    v.name = String::from("GE");
    assert_eq!(function_name(&instruction("jcc", vec![]), &v), "encode_jcc_GE");
}

#[test]
fn test_generate_variant_zo() {
    let cpuid = instruction("cpuid", vec![]);
    let v = variant(&[0x0F, 0xA2], OperandEncoding::ZO, &[]);
    let expected = "\n/// Does it.\n#[inline(always)]\npub const fn encode_cpuid() -> EncodedX86_64Instruction {\n    unsafe { EncodedX86_64Instruction::from_array([0x0F,0xA2]) }\n}\n";
    assert_eq!(generate_variant_zo(&cpuid, &v), expected);
    assert_eq!(generate_variant(&cpuid, &v), Ok(String::from(expected)));
}

#[test]
fn test_generate_variant_i() {
    let add = instruction("add", vec![]);
    let mut v = variant(&[0x05], OperandEncoding::I, &[Operand::imm32]);
    v.name = String::from("RAX");
    v.additional_properties = VariantProperty::PrefixRexW();
    assert_eq!(
        generate_variant_i(&add, &v),
        Ok(String::from("\n/// Does it.\n#[inline(always)]\npub const fn encode_add_RAX_imm32(imm32: Immediate32) -> EncodedX86_64Instruction {\n    unsafe { utils::enc_I::encode_I_imm32_prefix_rex_w([0x05], imm32) }\n}\n"))
    );
    v.additional_properties = VariantProperty::PrefixOSO();
    assert_eq!(
        generate_variant(&add, &v),
        Ok(String::from("\n/// Does it.\n#[inline(always)]\npub const fn encode_add_RAX_imm32(imm32: Immediate32) -> EncodedX86_64Instruction {\n    unsafe { utils::enc_I::encode_I_imm32([0x05], imm32) }\n}\n"))
    );
    v.operands = vec![Operand::imm16];
    assert_eq!(
        generate_variant_i(&add, &v),
        Ok(String::from("\n/// Does it.\n#[inline(always)]\npub const fn encode_add_RAX_imm16(imm16: Immediate16) -> EncodedX86_64Instruction {\n    unsafe { utils::enc_I::encode_I_imm16_operand_size_override([0x05], imm16) }\n}\n"))
    );
    v.additional_properties = VariantProperty::PrefixRexW();
    assert_eq!(
        generate_variant_i(&add, &v),
        Ok(String::from("\n/// Does it.\n#[inline(always)]\npub const fn encode_add_RAX_imm16(imm16: Immediate16) -> EncodedX86_64Instruction {\n    unsafe { utils::enc_I::encode_I_imm16([0x05], imm16) }\n}\n"))
    );
    v.name = String::new();
    v.operands = vec![Operand::imm8];
    assert_eq!(
        generate_variant_i(&add, &v),
        Ok(String::from("\n/// Does it.\n#[inline(always)]\npub const fn encode_add_imm8(imm8: Immediate8) -> EncodedX86_64Instruction {\n    unsafe { utils::enc_I::encode_I_imm8([0x05], imm8) }\n}\n"))
    );
    v.operands = vec![Operand::imm64];
    assert_eq!(generate_variant_i(&add, &v), Err(VariantError::UnsupportedOperands));
    v.operands = vec![Operand::rm8];
    assert_eq!(generate_variant_i(&add, &v), Err(VariantError::UnsupportedOperands));
    v.operands = vec![];
    assert_eq!(generate_variant_i(&add, &v), Err(VariantError::OperandCount));
    v.operands = vec![Operand::imm8, Operand::imm8];
    assert_eq!(generate_variant(&add, &v), Err(VariantError::OperandCount));
}

#[test]
fn test_generate_variant_mi() {
    let add = instruction("add", vec![]);
    let mut v = variant(&[0x80], OperandEncoding::MI, &[Operand::rm8, Operand::imm8]);
    assert_eq!(generate_variant_mi(&add, &v), Err(VariantError::MissingExtendedOpcode));
    v.extended_opcode = Some(7);
    let expected = format!(
        "{}encode_add_rm8_imm8(rm8: GPROrMemory, imm8: Immediate8) -> EncodedX86_64Instruction {{\n    unsafe {{ utils::enc_MI::encode_MI_rm8_imm8([0x80], 0x07, &rm8, imm8) }}\n}}\n",
        UNCHECKED
    );
    assert_eq!(generate_variant_mi(&add, &v), Ok(expected.clone()));
    assert_eq!(generate_variant(&add, &v), Ok(expected));
    v.operands = vec![Operand::rm64, Operand::imm32];
    let expected = format!(
        "{}encode_add_rm64_imm32(rm64: GPROrMemory, imm32: Immediate32) -> EncodedX86_64Instruction {{\n    unsafe {{ utils::enc_MI::encode_MI_rm64_imm32([0x80], 0x07, &rm64, imm32) }}\n}}\n",
        UNCHECKED
    );
    assert_eq!(generate_variant_mi(&add, &v), Ok(expected));
    for (rm, imm) in [
        (Operand::rm16, Operand::imm16),
        (Operand::rm32, Operand::imm32),
        (Operand::rm16, Operand::imm8),
        (Operand::rm32, Operand::imm8),
        (Operand::rm64, Operand::imm8),
    ] {
        v.operands = vec![rm, imm];
        assert!(generate_variant_mi(&add, &v).is_ok());
    }
    for (rm, imm) in [
        (Operand::rm8, Operand::imm16),
        (Operand::rm64, Operand::imm64),
        (Operand::rm16, Operand::imm32),
        (Operand::reg8, Operand::imm8),
        (Operand::imm8, Operand::rm8),
        (Operand::m, Operand::imm8),
    ] {
        v.operands = vec![rm, imm];
        assert_eq!(generate_variant_mi(&add, &v), Err(VariantError::UnsupportedOperands));
    }
    v.operands = vec![Operand::rm8];
    assert_eq!(generate_variant_mi(&add, &v), Err(VariantError::OperandCount));
}

#[test]
fn test_generate_variant_mr() {
    let mov = instruction("mov", vec![]);
    let mut v = variant(&[0x89], OperandEncoding::MR, &[Operand::rm64, Operand::reg64]);
    let expected = format!(
        "{}encode_mov_rm64_reg64(rm64: GPROrMemory, reg64: GPR) -> EncodedX86_64Instruction {{\n    unsafe {{ utils::enc_MR::encode_MR([0x89], &rm64, reg64) }}\n}}\n",
        UNCHECKED
    );
    assert_eq!(generate_variant_mr(&mov, &v), Ok(expected));
    v.operands = vec![Operand::reg64, Operand::rm64];
    let expected = format!(
        "{}encode_mov_reg64_rm64(reg64: GPR, rm64: GPROrMemory) -> EncodedX86_64Instruction {{\n    unsafe {{ utils::enc_MR::encode_MR([0x89], &rm64, reg64) }}\n}}\n",
        UNCHECKED
    );
    assert_eq!(generate_variant(&mov, &v), Ok(expected));
    v.operands = vec![Operand::reg16, Operand::m];
    let expected = format!(
        "{}encode_mov_reg16_m(reg16: GPR, m: Memory) -> EncodedX86_64Instruction {{\n    unsafe {{ utils::enc_MR::encode_MR_m([0x89], &m, reg16) }}\n}}\n",
        UNCHECKED
    );
    assert_eq!(generate_variant_mr(&mov, &v), Ok(expected));
    v.operands = vec![Operand::rm8, Operand::rm8];
    assert_eq!(generate_variant_mr(&mov, &v), Err(VariantError::TwoMemoryOperands));
    v.operands = vec![Operand::rm8, Operand::imm8];
    assert_eq!(generate_variant_mr(&mov, &v), Err(VariantError::UnsupportedOperands));
    v.operands = vec![Operand::imm8, Operand::reg8];
    assert_eq!(generate_variant_mr(&mov, &v), Err(VariantError::UnsupportedOperands));
    v.operands = vec![Operand::rm8, Operand::reg8];
    v.extended_opcode = Some(0);
    assert_eq!(generate_variant_mr(&mov, &v), Err(VariantError::UnexpectedExtendedOpcode));
    v.operands = vec![Operand::rm8];
    assert_eq!(generate_variant_mr(&mov, &v), Err(VariantError::OperandCount));
}

#[test]
fn test_generate_variant_oi() {
    let mov = instruction("mov", vec![]);
    let mut v = variant(&[0xB8], OperandEncoding::OI, &[Operand::reg64, Operand::imm64]);
    let expected = format!(
        "{}encode_mov_reg64_imm64(reg64: GPR, imm64: Immediate64) -> EncodedX86_64Instruction {{\n    unsafe {{ utils::enc_OI::encode_OI_r64_imm64(0xB8, reg64, imm64) }}\n}}\n",
        UNCHECKED
    );
    assert_eq!(generate_variant_oi(&mov, &v), Ok(expected));
    v.operands = vec![Operand::reg8, Operand::imm8];
    let expected = format!(
        "{}encode_mov_reg8_imm8(reg8: GPR, imm8: Immediate8) -> EncodedX86_64Instruction {{\n    unsafe {{ utils::enc_OI::encode_OI_r8_imm8(0xB8, reg8, imm8) }}\n}}\n",
        UNCHECKED
    );
    assert_eq!(generate_variant(&mov, &v), Ok(expected));
    v.operands = vec![Operand::reg16, Operand::imm16];
    assert!(generate_variant_oi(&mov, &v).unwrap().contains("encode_OI_r16_imm16(0xB8, reg16, imm16)"));
    v.operands = vec![Operand::reg32, Operand::imm32];
    assert!(generate_variant_oi(&mov, &v).unwrap().contains("encode_OI_r32_imm32(0xB8, reg32, imm32)"));
    v.operands = vec![Operand::reg64, Operand::imm32];
    assert_eq!(generate_variant_oi(&mov, &v), Err(VariantError::UnsupportedOperands));
    v.operands = vec![Operand::reg64];
    assert_eq!(generate_variant_oi(&mov, &v), Err(VariantError::OperandCount));
    v.operands = vec![Operand::reg64, Operand::imm64];
    v.extended_opcode = Some(1);
    assert_eq!(generate_variant_oi(&mov, &v), Err(VariantError::UnexpectedExtendedOpcode));
}

#[test]
fn test_generate_variant_m_and_o() {
    let push = instruction("push", vec![]);
    let mut v = variant(&[0xFF], OperandEncoding::M, &[Operand::rm64]);
    assert_eq!(generate_variant_m(&push, &v), Err(VariantError::MissingExtendedOpcode));
    v.extended_opcode = Some(6);
    let expected = format!(
        "{}encode_push_rm64(rm64: GPROrMemory) -> EncodedX86_64Instruction {{\n    unsafe {{ utils::enc_M::encode_M_gpr_or_memory([0xFF], 0x06, &rm64, false, false) }}\n}}\n",
        UNCHECKED
    );
    assert_eq!(generate_variant_m(&push, &v), Ok(expected));
    v.operands = vec![Operand::rm16];
    v.additional_properties = VariantProperty::PrefixRexW().union(VariantProperty::PrefixOSO());
    let expected = format!(
        "{}encode_push_rm16(rm16: GPROrMemory) -> EncodedX86_64Instruction {{\n    unsafe {{ utils::enc_M::encode_M_gpr_or_memory([0xFF], 0x06, &rm16, true, true) }}\n}}\n",
        UNCHECKED
    );
    assert_eq!(generate_variant(&push, &v), Ok(expected));
    v.operands = vec![Operand::rm32];
    assert_eq!(generate_variant_m(&push, &v), Err(VariantError::UnsupportedOperands));
    v.operands = vec![];
    assert_eq!(generate_variant_m(&push, &v), Err(VariantError::OperandCount));

    let mut v = variant(&[0x50], OperandEncoding::O, &[Operand::reg64]);
    let expected = format!(
        "{}encode_push_reg64(reg64: GPR) -> EncodedX86_64Instruction {{\n    unsafe {{ utils::enc_O::encode_O(0x50, reg64) }}\n}}\n",
        UNCHECKED
    );
    assert_eq!(generate_variant_o(&push, &v), Ok(expected.clone()));
    assert_eq!(generate_variant(&push, &v), Ok(expected));
    v.operands = vec![Operand::reg16];
    assert!(generate_variant_o(&push, &v).unwrap().contains("encode_O(0x50, reg16)"));
    v.operands = vec![Operand::reg32];
    assert_eq!(generate_variant_o(&push, &v), Err(VariantError::UnsupportedOperands));
    v.operands = vec![Operand::reg64, Operand::reg64];
    assert_eq!(generate_variant_o(&push, &v), Err(VariantError::OperandCount));
    v.operands = vec![Operand::reg64];
    v.extended_opcode = Some(0);
    assert_eq!(generate_variant_o(&push, &v), Err(VariantError::UnexpectedExtendedOpcode));
}

fn small_set() -> InstructionSet {
    let mut imm16 = variant(&[0xC2], OperandEncoding::I, &[Operand::imm16]);
    imm16.description = String::from("Returns and pops.");
    InstructionSet {
        instructions: vec![
            instruction("ret", vec![variant(&[0xC3], OperandEncoding::ZO, &[]), imm16]),
            instruction("nop", vec![variant(&[0x90], OperandEncoding::ZO, &[])]),
            instruction("ud", vec![]),
            instruction("lock", vec![variant(&[0xF0], OperandEncoding::ZO, &[])]),
        ],
    }
}

const CONTENT: &str = "/// Holds encoders for instructions that have only one variant.\npub mod singleton { use super::*;\n\n\n/// Does it.\n#[inline(always)]\npub const fn encode_nop() -> EncodedX86_64Instruction {\n    unsafe { EncodedX86_64Instruction::from_array([0x90]) }\n}\n\n/// Does it.\n#[inline(always)]\npub const fn encode_lock() -> EncodedX86_64Instruction {\n    unsafe { EncodedX86_64Instruction::from_array([0xF0]) }\n}\n}\n\n/// Holds encoders for variants of `ret` instruction.\npub mod ret { use super::*;\n\n\n/// Does it.\n#[inline(always)]\npub const fn encode_ret() -> EncodedX86_64Instruction {\n    unsafe { EncodedX86_64Instruction::from_array([0xC3]) }\n}\n\n/// Returns and pops.\n#[inline(always)]\npub const fn encode_ret_imm16(imm16: Immediate16) -> EncodedX86_64Instruction {\n    unsafe { utils::enc_I::encode_I_imm16([0xC2], imm16) }\n}\n }\n\n/// Holds encoders for variants of `ud` instruction.\npub mod ud { use super::*;\n\n }\n\n";

const PRELUDE: &str = "#![allow(non_snake_case)]\n#![allow(unused_imports)]\n#![allow(clippy::needless_pass_by_value)]\n#![allow(clippy::wildcard_imports)]\n\nuse crate::{{\n    models::{{GPR, GPROrMemory, Memory, EncodedX86_64Instruction, Immediate8, Immediate16, Immediate32, Immediate64}},\n}};\nuse crate::encoders::utils;";

#[test]
fn test_generate_content() {
    assert_eq!(generate_content(&small_set()), Ok(String::from(CONTENT)));
    assert_eq!(generate_content(&small_set()), generate_content(&small_set()));
    let empty = InstructionSet { instructions: vec![] };
    assert_eq!(
        generate_content(&empty),
        Ok(String::from("/// Holds encoders for instructions that have only one variant.\npub mod singleton { use super::*;\n\n}\n\n"))
    );
}

#[test]
fn test_generate_content_reports_the_variant() {
    let mut set = small_set();
    set.instructions[0].variant_set.variants[1].operands = vec![Operand::imm64];
    assert_eq!(
        generate_content(&set),
        Err(InvalidVariant { instruction: 0, variant: 1, error: VariantError::UnsupportedOperands })
    );
    let mut set = small_set();
    set.instructions[3].variant_set.variants[0].encoding = OperandEncoding::MI;
    assert_eq!(
        generate_content(&set),
        Err(InvalidVariant { instruction: 3, variant: 0, error: VariantError::OperandCount })
    );
    match generate("// header", &set) {
        Err(error) => assert_eq!(
            error,
            GenerationError::Encoders(InvalidVariant {
                instruction: 3,
                variant: 0,
                error: VariantError::OperandCount
            })
        ),
        Ok(_) => panic!("an instruction of class MI has no operands"),
    }
}

#[test]
fn test_generate_enc() {
    let expected = format!(
        "\n// header\n//!\n//! # Content\n//! \n//! Holds encoders for instructions valid in 64-bit X86 instruction set.\n{}\n\n{}",
        PRELUDE, CONTENT
    );
    assert_eq!(generate_enc("// header", &small_set()), Ok(expected));
}

const MNEMONICS: &str = "// header\n#![allow(non_camel_case_types)]\n\n#[derive(Debug, Clone, Copy, PartialEq, Eq, Hash)]\npub struct InvalidMnemonicError;\n\n#[derive(Debug, Clone, Copy, PartialEq, Eq, Hash)]\n#[repr(u8)]\n#[must_use]\npub enum Mnemonic {\n    ret = 1,\nnop = 2,\nud = 3,\nlock = 4,\n\n}\n\nimpl Mnemonic {\n    #[inline]\n    #[must_use]\n    pub const fn as_str(self) -> &'static str {\n        match self {\n            Self::ret => \"ret\",\nSelf::nop => \"nop\",\nSelf::ud => \"ud\",\nSelf::lock => \"lock\",\n\n        }\n    }\n\n    #[inline]\n    pub fn from_str(text: &str) -> Result<Self, InvalidMnemonicError> {\n        match text {\n            \"ret\" => Ok(Self::ret),\n\"nop\" => Ok(Self::nop),\n\"ud\" => Ok(Self::ud),\n\"lock\" => Ok(Self::lock),\n\n            _ => Err(InvalidMnemonicError),\n        }\n    }\n}\n\nconst _: () = const {\n    assert!(size_of::<InvalidMnemonicError>() == 0, \"InvalidMnemonicError must be 0 bytes.\");\n    assert!(size_of::<Mnemonic>() == 1, \"Mnemonic must be 1 byte.\");\n    assert!(size_of::<Option<Mnemonic>>() == 1, \"Option<Mnemonic> must be 1 byte.\");\n\n};\n    ";

#[test]
fn test_generate_mnemonics_enum() {
    assert_eq!(generate_mnemonics_enum("// header", &small_set()), Ok(String::from(MNEMONICS)));
    let mut many = InstructionSet { instructions: vec![] };
    for i in 0..12 {
        many.instructions.push(instruction(&format!("m{}", i), vec![]));
    }
    let text = generate_mnemonics_enum("", &many).unwrap();
    assert!(text.contains("m8 = 9,\nm9 = 10,\nm10 = 11,\nm11 = 12,\n"));
}

#[test]
fn test_generate_mnemonics_enum_errors() {
    let mut set = small_set();
    set.instructions.push(instruction("nop", vec![]));
    assert_eq!(generate_mnemonics_enum("", &set), Err(MnemonicError::NotUnique));
    let mut set = small_set();
    set.instructions.push(instruction("", vec![]));
    assert_eq!(generate_mnemonics_enum("", &set), Err(MnemonicError::Empty));
    set.instructions.push(instruction("", vec![]));
    assert_eq!(generate_mnemonics_enum("", &set), Err(MnemonicError::NotUnique));
    match generate("", &set) {
        Err(error) => assert_eq!(error, GenerationError::Mnemonics(MnemonicError::NotUnique)),
        Ok(_) => panic!("two instructions have no mnemonic"),
    }
}

#[test]
fn test_generate() {
    let sources = generate("// header", &small_set()).unwrap();
    assert_eq!(sources.mnemonics, MNEMONICS);
    assert_eq!(sources.encoders, generate_enc("// header", &small_set()).unwrap());
}
