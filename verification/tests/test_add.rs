#![allow(non_snake_case)]
use osom_encoders_x86_64::encoders::add;
use osom_encoders_x86_64::models::{
    GPROrMemory, Immediate16, Immediate32, Immediate8,
    Memory, Offset, GPR,
};

#[test]
fn test_add_AL_imm8() {
    {
        let imm8: i8 = -2;
        let expected: &[u8] = &[0x04, 0xFE];
        let imm8 = Immediate8::from_i8(imm8);
        let instr = add::encode_add_AL_imm8(imm8);
        assert_eq!(expected, instr.as_slice());
    }
    {
        let imm8: i8 = -1;
        let expected: &[u8] = &[0x04, 0xFF];
        let imm8 = Immediate8::from_i8(imm8);
        let instr = add::encode_add_AL_imm8(imm8);
        assert_eq!(expected, instr.as_slice());
    }
    {
        let imm8: i8 = 0;
        let expected: &[u8] = &[0x04, 0x00];
        let imm8 = Immediate8::from_i8(imm8);
        let instr = add::encode_add_AL_imm8(imm8);
        assert_eq!(expected, instr.as_slice());
    }
    {
        let imm8: i8 = 1;
        let expected: &[u8] = &[0x04, 0x01];
        let imm8 = Immediate8::from_i8(imm8);
        let instr = add::encode_add_AL_imm8(imm8);
        assert_eq!(expected, instr.as_slice());
    }
    {
        let imm8: i8 = 10;
        let expected: &[u8] = &[0x04, 0x0A];
        let imm8 = Immediate8::from_i8(imm8);
        let instr = add::encode_add_AL_imm8(imm8);
        assert_eq!(expected, instr.as_slice());
    }
    {
        let imm8: i8 = 127;
        let expected: &[u8] = &[0x04, 0x7F];
        let imm8 = Immediate8::from_i8(imm8);
        let instr = add::encode_add_AL_imm8(imm8);
        assert_eq!(expected, instr.as_slice());
    }
}

#[test]
fn test_add_AX_imm16() {
    {
        let imm16: i16 = -2;
        let expected: &[u8] = &[0x66, 0x05, 0xFE, 0xFF];
        let imm16 = Immediate16::from_i16(imm16);
        let instr = add::encode_add_AX_imm16(imm16);
        assert_eq!(expected, instr.as_slice());
    }
    {
        let imm16: i16 = -1;
        let expected: &[u8] = &[0x66, 0x05, 0xFF, 0xFF];
        let imm16 = Immediate16::from_i16(imm16);
        let instr = add::encode_add_AX_imm16(imm16);
        assert_eq!(expected, instr.as_slice());
    }
    {
        let imm16: i16 = 0;
        let expected: &[u8] = &[0x66, 0x05, 0x00, 0x00];
        let imm16 = Immediate16::from_i16(imm16);
        let instr = add::encode_add_AX_imm16(imm16);
        assert_eq!(expected, instr.as_slice());
    }
    {
        let imm16: i16 = 1;
        let expected: &[u8] = &[0x66, 0x05, 0x01, 0x00];
        let imm16 = Immediate16::from_i16(imm16);
        let instr = add::encode_add_AX_imm16(imm16);
        assert_eq!(expected, instr.as_slice());
    }
    {
        let imm16: i16 = 10;
        let expected: &[u8] = &[0x66, 0x05, 0x0A, 0x00];
        let imm16 = Immediate16::from_i16(imm16);
        let instr = add::encode_add_AX_imm16(imm16);
        assert_eq!(expected, instr.as_slice());
    }
    {
        let imm16: i16 = 127;
        let expected: &[u8] = &[0x66, 0x05, 0x7F, 0x00];
        let imm16 = Immediate16::from_i16(imm16);
        let instr = add::encode_add_AX_imm16(imm16);
        assert_eq!(expected, instr.as_slice());
    }
    {
        let imm16: i16 = 1234;
        let expected: &[u8] = &[0x66, 0x05, 0xD2, 0x04];
        let imm16 = Immediate16::from_i16(imm16);
        let instr = add::encode_add_AX_imm16(imm16);
        assert_eq!(expected, instr.as_slice());
    }
}

#[test]
fn test_add_EAX_imm32() {
    {
        let imm32: i32 = -2;
        let expected: &[u8] = &[0x05, 0xFE, 0xFF, 0xFF, 0xFF];
        let imm32 = Immediate32::from_i32(imm32);
        let instr = add::encode_add_EAX_imm32(imm32);
        assert_eq!(expected, instr.as_slice());
    }
    {
        let imm32: i32 = -1;
        let expected: &[u8] = &[0x05, 0xFF, 0xFF, 0xFF, 0xFF];
        let imm32 = Immediate32::from_i32(imm32);
        let instr = add::encode_add_EAX_imm32(imm32);
        assert_eq!(expected, instr.as_slice());
    }
    {
        let imm32: i32 = 0;
        let expected: &[u8] = &[0x05, 0x00, 0x00, 0x00, 0x00];
        let imm32 = Immediate32::from_i32(imm32);
        let instr = add::encode_add_EAX_imm32(imm32);
        assert_eq!(expected, instr.as_slice());
    }
    {
        let imm32: i32 = 1;
        let expected: &[u8] = &[0x05, 0x01, 0x00, 0x00, 0x00];
        let imm32 = Immediate32::from_i32(imm32);
        let instr = add::encode_add_EAX_imm32(imm32);
        assert_eq!(expected, instr.as_slice());
    }
    {
        let imm32: i32 = 10;
        let expected: &[u8] = &[0x05, 0x0A, 0x00, 0x00, 0x00];
        let imm32 = Immediate32::from_i32(imm32);
        let instr = add::encode_add_EAX_imm32(imm32);
        assert_eq!(expected, instr.as_slice());
    }
    {
        let imm32: i32 = 127;
        let expected: &[u8] = &[0x05, 0x7F, 0x00, 0x00, 0x00];
        let imm32 = Immediate32::from_i32(imm32);
        let instr = add::encode_add_EAX_imm32(imm32);
        assert_eq!(expected, instr.as_slice());
    }
    {
        let imm32: i32 = 1234;
        let expected: &[u8] = &[0x05, 0xD2, 0x04, 0x00, 0x00];
        let imm32 = Immediate32::from_i32(imm32);
        let instr = add::encode_add_EAX_imm32(imm32);
        assert_eq!(expected, instr.as_slice());
    }
    {
        let imm32: i32 = 12345678;
        let expected: &[u8] = &[0x05, 0x4E, 0x61, 0xBC, 0x00];
        let imm32 = Immediate32::from_i32(imm32);
        let instr = add::encode_add_EAX_imm32(imm32);
        assert_eq!(expected, instr.as_slice());
    }
}

#[test]
fn test_add_RAX_imm32() {
    {
        let imm32: i32 = -2;
        let expected: &[u8] = &[0x48, 0x05, 0xFE, 0xFF, 0xFF, 0xFF];
        let imm32 = Immediate32::from_i32(imm32);
        let instr = add::encode_add_RAX_imm32(imm32);
        assert_eq!(expected, instr.as_slice());
    }
    {
        let imm32: i32 = -1;
        let expected: &[u8] = &[0x48, 0x05, 0xFF, 0xFF, 0xFF, 0xFF];
        let imm32 = Immediate32::from_i32(imm32);
        let instr = add::encode_add_RAX_imm32(imm32);
        assert_eq!(expected, instr.as_slice());
    }
    {
        let imm32: i32 = 0;
        let expected: &[u8] = &[0x48, 0x05, 0x00, 0x00, 0x00, 0x00];
        let imm32 = Immediate32::from_i32(imm32);
        let instr = add::encode_add_RAX_imm32(imm32);
        assert_eq!(expected, instr.as_slice());
    }
    {
        let imm32: i32 = 1;
        let expected: &[u8] = &[0x48, 0x05, 0x01, 0x00, 0x00, 0x00];
        let imm32 = Immediate32::from_i32(imm32);
        let instr = add::encode_add_RAX_imm32(imm32);
        assert_eq!(expected, instr.as_slice());
    }
    {
        let imm32: i32 = 10;
        let expected: &[u8] = &[0x48, 0x05, 0x0A, 0x00, 0x00, 0x00];
        let imm32 = Immediate32::from_i32(imm32);
        let instr = add::encode_add_RAX_imm32(imm32);
        assert_eq!(expected, instr.as_slice());
    }
    {
        let imm32: i32 = 127;
        let expected: &[u8] = &[0x48, 0x05, 0x7F, 0x00, 0x00, 0x00];
        let imm32 = Immediate32::from_i32(imm32);
        let instr = add::encode_add_RAX_imm32(imm32);
        assert_eq!(expected, instr.as_slice());
    }
    {
        let imm32: i32 = 1234;
        let expected: &[u8] = &[0x48, 0x05, 0xD2, 0x04, 0x00, 0x00];
        let imm32 = Immediate32::from_i32(imm32);
        let instr = add::encode_add_RAX_imm32(imm32);
        assert_eq!(expected, instr.as_slice());
    }
    {
        let imm32: i32 = 12345678;
        let expected: &[u8] = &[0x48, 0x05, 0x4E, 0x61, 0xBC, 0x00];
        let imm32 = Immediate32::from_i32(imm32);
        let instr = add::encode_add_RAX_imm32(imm32);
        assert_eq!(expected, instr.as_slice());
    }
}

#[test]
fn test_add_rm8_imm8() {
    {
        let gpr_or_memory: GPROrMemory = GPROrMemory::GPR { gpr: GPR::AL };
        let imm8: Immediate8 = Immediate8::from_i8(1);
        let expected: &[u8] = &[0x80, 0xC0, 0x01];
        let instr = add::encode_add_rm8_imm8(gpr_or_memory, imm8);
        assert_eq!(expected, instr.as_slice());
    }
    {
        let gpr_or_memory: GPROrMemory = GPROrMemory::GPR { gpr: GPR::BL };
        let imm8: Immediate8 = Immediate8::from_i8(5);
        let expected: &[u8] = &[0x80, 0xC3, 0x05];
        let instr = add::encode_add_rm8_imm8(gpr_or_memory, imm8);
        assert_eq!(expected, instr.as_slice());
    }
    {
        let gpr_or_memory: GPROrMemory = GPROrMemory::GPR { gpr: GPR::AH };
        let imm8: Immediate8 = Immediate8::from_i8(0);
        let expected: &[u8] = &[0x80, 0xC4, 0x00];
        let instr = add::encode_add_rm8_imm8(gpr_or_memory, imm8);
        assert_eq!(expected, instr.as_slice());
    }
    {
        let gpr_or_memory: GPROrMemory = GPROrMemory::GPR { gpr: GPR::SPL };
        let imm8: Immediate8 = Immediate8::from_i8(0);
        let expected: &[u8] = &[0x40, 0x80, 0xC4, 0x00];
        let instr = add::encode_add_rm8_imm8(gpr_or_memory, imm8);
        assert_eq!(expected, instr.as_slice());
    }
    {
        let gpr_or_memory: GPROrMemory = GPROrMemory::GPR { gpr: GPR::R10B };
        let imm8: Immediate8 = Immediate8::from_i8(-1);
        let expected: &[u8] = &[0x41, 0x80, 0xC2, 0xFF];
        let instr = add::encode_add_rm8_imm8(gpr_or_memory, imm8);
        assert_eq!(expected, instr.as_slice());
    }
    {
        let gpr_or_memory: GPROrMemory = GPROrMemory::GPR { gpr: GPR::R15B };
        let imm8: Immediate8 = Immediate8::from_i8(-15);
        let expected: &[u8] = &[0x41, 0x80, 0xC7, 0xF1];
        let instr = add::encode_add_rm8_imm8(gpr_or_memory, imm8);
        assert_eq!(expected, instr.as_slice());
    }
    {
        let gpr_or_memory: GPROrMemory = GPROrMemory::Memory { memory: Memory::Based { base: GPR::RAX, offset: Offset::NoOffset } };
        let imm8: Immediate8 = Immediate8::from_i8(1);
        let expected: &[u8] = &[0x80, 0x00, 0x01];
        let instr = add::encode_add_rm8_imm8(gpr_or_memory, imm8);
        assert_eq!(expected, instr.as_slice());
    }
    {
        let gpr_or_memory: GPROrMemory = GPROrMemory::Memory { memory: Memory::Based { base: GPR::RDX, offset: Offset::NoOffset } };
        let imm8: Immediate8 = Immediate8::from_i8(2);
        let expected: &[u8] = &[0x80, 0x02, 0x02];
        let instr = add::encode_add_rm8_imm8(gpr_or_memory, imm8);
        assert_eq!(expected, instr.as_slice());
    }
    {
        let gpr_or_memory: GPROrMemory = GPROrMemory::Memory { memory: Memory::Based { base: GPR::R10, offset: Offset::NoOffset } };
        let imm8: Immediate8 = Immediate8::from_i8(-1);
        let expected: &[u8] = &[0x41, 0x80, 0x02, 0xFF];
        let instr = add::encode_add_rm8_imm8(gpr_or_memory, imm8);
        assert_eq!(expected, instr.as_slice());
    }
    {
        let gpr_or_memory: GPROrMemory = GPROrMemory::Memory { memory: Memory::Based { base: GPR::RSP, offset: Offset::NoOffset } };
        let imm8: Immediate8 = Immediate8::from_i8(3);
        let expected: &[u8] = &[0x80, 0x04, 0x24, 0x03];
        let instr = add::encode_add_rm8_imm8(gpr_or_memory, imm8);
        assert_eq!(expected, instr.as_slice());
    }
    {
        let gpr_or_memory: GPROrMemory = GPROrMemory::Memory { memory: Memory::Based { base: GPR::R12, offset: Offset::NoOffset } };
        let imm8: Immediate8 = Immediate8::from_i8(3);
        let expected: &[u8] = &[0x41, 0x80, 0x04, 0x24, 0x03];
        let instr = add::encode_add_rm8_imm8(gpr_or_memory, imm8);
        assert_eq!(expected, instr.as_slice());
    }
    {
        let gpr_or_memory: GPROrMemory = GPROrMemory::Memory { memory: Memory::Based { base: GPR::RBP, offset: Offset::NoOffset } };
        let imm8: Immediate8 = Immediate8::from_i8(4);
        let expected: &[u8] = &[0x80, 0x45, 0x00, 0x04];
        let instr = add::encode_add_rm8_imm8(gpr_or_memory, imm8);
        assert_eq!(expected, instr.as_slice());
    }
    {
        let gpr_or_memory: GPROrMemory = GPROrMemory::Memory { memory: Memory::Based { base: GPR::R13, offset: Offset::NoOffset } };
        let imm8: Immediate8 = Immediate8::from_i8(4);
        let expected: &[u8] = &[0x41, 0x80, 0x45, 0x00, 0x04];
        let instr = add::encode_add_rm8_imm8(gpr_or_memory, imm8);
        assert_eq!(expected, instr.as_slice());
    }
    {
        let gpr_or_memory: GPROrMemory = GPROrMemory::Memory { memory: Memory::RelativeToRIP { offset: Offset::NoOffset } };
        let imm8: Immediate8 = Immediate8::from_i8(1);
        let expected: &[u8] = &[0x80, 0x05, 0x00, 0x00, 0x00, 0x00, 0x01];
        let instr = add::encode_add_rm8_imm8(gpr_or_memory, imm8);
        assert_eq!(expected, instr.as_slice());
    }
    {
        let gpr_or_memory: GPROrMemory = GPROrMemory::Memory { memory: Memory::RelativeToRIP { offset: Offset::Bit8(Immediate8::from_i8(1)) } };
        let imm8: Immediate8 = Immediate8::from_i8(-1);
        let expected: &[u8] = &[0x80, 0x05, 0x01, 0x00, 0x00, 0x00, 0xFF];
        let instr = add::encode_add_rm8_imm8(gpr_or_memory, imm8);
        assert_eq!(expected, instr.as_slice());
    }
    {
        let gpr_or_memory: GPROrMemory = GPROrMemory::Memory { memory: Memory::RelativeToRIP { offset: Offset::Bit32(Immediate32::from_i32(-2000)) } };
        let imm8: Immediate8 = Immediate8::from_i8(3);
        let expected: &[u8] = &[0x80, 0x05, 0x30, 0xF8, 0xFF, 0xFF, 0x03];
        let instr = add::encode_add_rm8_imm8(gpr_or_memory, imm8);
        assert_eq!(expected, instr.as_slice());
    }
}
