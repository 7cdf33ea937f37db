#![allow(non_snake_case)]
use osom_encoders_x86_64::encoders::cmp;
use osom_encoders_x86_64::models::{
    GPROrMemory, Immediate16, Immediate32, Immediate8,
    Memory, Offset, GPR,
};

#[test]
fn test_cmp_AL_imm8() {
    {
        let imm8: i8 = -2;
        let expected: &[u8] = &[0x3C, 0xFE];
        let imm8 = Immediate8::from_i8(imm8);
        let instr = cmp::encode_cmp_AL_imm8(imm8);
        assert_eq!(expected, instr.as_slice());
    }
    {
        let imm8: i8 = -1;
        let expected: &[u8] = &[0x3C, 0xFF];
        let imm8 = Immediate8::from_i8(imm8);
        let instr = cmp::encode_cmp_AL_imm8(imm8);
        assert_eq!(expected, instr.as_slice());
    }
    {
        let imm8: i8 = 0;
        let expected: &[u8] = &[0x3C, 0x00];
        let imm8 = Immediate8::from_i8(imm8);
        let instr = cmp::encode_cmp_AL_imm8(imm8);
        assert_eq!(expected, instr.as_slice());
    }
    {
        let imm8: i8 = 1;
        let expected: &[u8] = &[0x3C, 0x01];
        let imm8 = Immediate8::from_i8(imm8);
        let instr = cmp::encode_cmp_AL_imm8(imm8);
        assert_eq!(expected, instr.as_slice());
    }
    {
        let imm8: i8 = 10;
        let expected: &[u8] = &[0x3C, 0x0A];
        let imm8 = Immediate8::from_i8(imm8);
        let instr = cmp::encode_cmp_AL_imm8(imm8);
        assert_eq!(expected, instr.as_slice());
    }
    {
        let imm8: i8 = 127;
        let expected: &[u8] = &[0x3C, 0x7F];
        let imm8 = Immediate8::from_i8(imm8);
        let instr = cmp::encode_cmp_AL_imm8(imm8);
        assert_eq!(expected, instr.as_slice());
    }
}

#[test]
fn test_cmp_AX_imm16() {
    {
        let imm16: i16 = -2;
        let expected: &[u8] = &[0x66, 0x3D, 0xFE, 0xFF];
        let imm16 = Immediate16::from_i16(imm16);
        let instr = cmp::encode_cmp_AX_imm16(imm16);
        assert_eq!(expected, instr.as_slice());
    }
    {
        let imm16: i16 = -1;
        let expected: &[u8] = &[0x66, 0x3D, 0xFF, 0xFF];
        let imm16 = Immediate16::from_i16(imm16);
        let instr = cmp::encode_cmp_AX_imm16(imm16);
        assert_eq!(expected, instr.as_slice());
    }
    {
        let imm16: i16 = 0;
        let expected: &[u8] = &[0x66, 0x3D, 0x00, 0x00];
        let imm16 = Immediate16::from_i16(imm16);
        let instr = cmp::encode_cmp_AX_imm16(imm16);
        assert_eq!(expected, instr.as_slice());
    }
    {
        let imm16: i16 = 1;
        let expected: &[u8] = &[0x66, 0x3D, 0x01, 0x00];
        let imm16 = Immediate16::from_i16(imm16);
        let instr = cmp::encode_cmp_AX_imm16(imm16);
        assert_eq!(expected, instr.as_slice());
    }
    {
        let imm16: i16 = 10;
        let expected: &[u8] = &[0x66, 0x3D, 0x0A, 0x00];
        let imm16 = Immediate16::from_i16(imm16);
        let instr = cmp::encode_cmp_AX_imm16(imm16);
        assert_eq!(expected, instr.as_slice());
    }
    {
        let imm16: i16 = 127;
        let expected: &[u8] = &[0x66, 0x3D, 0x7F, 0x00];
        let imm16 = Immediate16::from_i16(imm16);
        let instr = cmp::encode_cmp_AX_imm16(imm16);
        assert_eq!(expected, instr.as_slice());
    }
    {
        let imm16: i16 = 1234;
        let expected: &[u8] = &[0x66, 0x3D, 0xD2, 0x04];
        let imm16 = Immediate16::from_i16(imm16);
        let instr = cmp::encode_cmp_AX_imm16(imm16);
        assert_eq!(expected, instr.as_slice());
    }
}

#[test]
fn test_cmp_EAX_imm32() {
    {
        let imm32: i32 = -2;
        let expected: &[u8] = &[0x3D, 0xFE, 0xFF, 0xFF, 0xFF];
        let imm32 = Immediate32::from_i32(imm32);
        let instr = cmp::encode_cmp_EAX_imm32(imm32);
        assert_eq!(expected, instr.as_slice());
    }
    {
        let imm32: i32 = -1;
        let expected: &[u8] = &[0x3D, 0xFF, 0xFF, 0xFF, 0xFF];
        let imm32 = Immediate32::from_i32(imm32);
        let instr = cmp::encode_cmp_EAX_imm32(imm32);
        assert_eq!(expected, instr.as_slice());
    }
    {
        let imm32: i32 = 0;
        let expected: &[u8] = &[0x3D, 0x00, 0x00, 0x00, 0x00];
        let imm32 = Immediate32::from_i32(imm32);
        let instr = cmp::encode_cmp_EAX_imm32(imm32);
        assert_eq!(expected, instr.as_slice());
    }
    {
        let imm32: i32 = 1;
        let expected: &[u8] = &[0x3D, 0x01, 0x00, 0x00, 0x00];
        let imm32 = Immediate32::from_i32(imm32);
        let instr = cmp::encode_cmp_EAX_imm32(imm32);
        assert_eq!(expected, instr.as_slice());
    }
    {
        let imm32: i32 = 10;
        let expected: &[u8] = &[0x3D, 0x0A, 0x00, 0x00, 0x00];
        let imm32 = Immediate32::from_i32(imm32);
        let instr = cmp::encode_cmp_EAX_imm32(imm32);
        assert_eq!(expected, instr.as_slice());
    }
    {
        let imm32: i32 = 127;
        let expected: &[u8] = &[0x3D, 0x7F, 0x00, 0x00, 0x00];
        let imm32 = Immediate32::from_i32(imm32);
        let instr = cmp::encode_cmp_EAX_imm32(imm32);
        assert_eq!(expected, instr.as_slice());
    }
    {
        let imm32: i32 = 1234;
        let expected: &[u8] = &[0x3D, 0xD2, 0x04, 0x00, 0x00];
        let imm32 = Immediate32::from_i32(imm32);
        let instr = cmp::encode_cmp_EAX_imm32(imm32);
        assert_eq!(expected, instr.as_slice());
    }
    {
        let imm32: i32 = 12345678;
        let expected: &[u8] = &[0x3D, 0x4E, 0x61, 0xBC, 0x00];
        let imm32 = Immediate32::from_i32(imm32);
        let instr = cmp::encode_cmp_EAX_imm32(imm32);
        assert_eq!(expected, instr.as_slice());
    }
}

#[test]
fn test_cmp_RAX_imm32() {
    {
        let imm32: i32 = -2;
        let expected: &[u8] = &[0x48, 0x3D, 0xFE, 0xFF, 0xFF, 0xFF];
        let imm32 = Immediate32::from_i32(imm32);
        let instr = cmp::encode_cmp_RAX_imm32(imm32);
        assert_eq!(expected, instr.as_slice());
    }
    {
        let imm32: i32 = -1;
        let expected: &[u8] = &[0x48, 0x3D, 0xFF, 0xFF, 0xFF, 0xFF];
        let imm32 = Immediate32::from_i32(imm32);
        let instr = cmp::encode_cmp_RAX_imm32(imm32);
        assert_eq!(expected, instr.as_slice());
    }
    {
        let imm32: i32 = 0;
        let expected: &[u8] = &[0x48, 0x3D, 0x00, 0x00, 0x00, 0x00];
        let imm32 = Immediate32::from_i32(imm32);
        let instr = cmp::encode_cmp_RAX_imm32(imm32);
        assert_eq!(expected, instr.as_slice());
    }
    {
        let imm32: i32 = 1;
        let expected: &[u8] = &[0x48, 0x3D, 0x01, 0x00, 0x00, 0x00];
        let imm32 = Immediate32::from_i32(imm32);
        let instr = cmp::encode_cmp_RAX_imm32(imm32);
        assert_eq!(expected, instr.as_slice());
    }
    {
        let imm32: i32 = 10;
        let expected: &[u8] = &[0x48, 0x3D, 0x0A, 0x00, 0x00, 0x00];
        let imm32 = Immediate32::from_i32(imm32);
        let instr = cmp::encode_cmp_RAX_imm32(imm32);
        assert_eq!(expected, instr.as_slice());
    }
    {
        let imm32: i32 = 127;
        let expected: &[u8] = &[0x48, 0x3D, 0x7F, 0x00, 0x00, 0x00];
        let imm32 = Immediate32::from_i32(imm32);
        let instr = cmp::encode_cmp_RAX_imm32(imm32);
        assert_eq!(expected, instr.as_slice());
    }
    {
        let imm32: i32 = 1234;
        let expected: &[u8] = &[0x48, 0x3D, 0xD2, 0x04, 0x00, 0x00];
        let imm32 = Immediate32::from_i32(imm32);
        let instr = cmp::encode_cmp_RAX_imm32(imm32);
        assert_eq!(expected, instr.as_slice());
    }
    {
        let imm32: i32 = 12345678;
        let expected: &[u8] = &[0x48, 0x3D, 0x4E, 0x61, 0xBC, 0x00];
        let imm32 = Immediate32::from_i32(imm32);
        let instr = cmp::encode_cmp_RAX_imm32(imm32);
        assert_eq!(expected, instr.as_slice());
    }
}

#[test]
fn test_cmp_rm8_imm8() {
    {
        let gpr_or_memory: GPROrMemory = GPROrMemory::GPR { gpr: GPR::AL };
        let imm8: Immediate8 = Immediate8::from_i8(1);
        let expected: &[u8] = &[0x80, 0xF8, 0x01];
        let instr = cmp::encode_cmp_rm8_imm8(gpr_or_memory, imm8);
        assert_eq!(expected, instr.as_slice());
    }
    {
        let gpr_or_memory: GPROrMemory = GPROrMemory::GPR { gpr: GPR::BL };
        let imm8: Immediate8 = Immediate8::from_i8(5);
        let expected: &[u8] = &[0x80, 0xFB, 0x05];
        let instr = cmp::encode_cmp_rm8_imm8(gpr_or_memory, imm8);
        assert_eq!(expected, instr.as_slice());
    }
    {
        let gpr_or_memory: GPROrMemory = GPROrMemory::GPR { gpr: GPR::AH };
        let imm8: Immediate8 = Immediate8::from_i8(0);
        let expected: &[u8] = &[0x80, 0xFC, 0x00];
        let instr = cmp::encode_cmp_rm8_imm8(gpr_or_memory, imm8);
        assert_eq!(expected, instr.as_slice());
    }
    {
        let gpr_or_memory: GPROrMemory = GPROrMemory::GPR { gpr: GPR::SPL };
        let imm8: Immediate8 = Immediate8::from_i8(0);
        let expected: &[u8] = &[0x40, 0x80, 0xFC, 0x00];
        let instr = cmp::encode_cmp_rm8_imm8(gpr_or_memory, imm8);
        assert_eq!(expected, instr.as_slice());
    }
    {
        let gpr_or_memory: GPROrMemory = GPROrMemory::GPR { gpr: GPR::R10B };
        let imm8: Immediate8 = Immediate8::from_i8(-1);
        let expected: &[u8] = &[0x41, 0x80, 0xFA, 0xFF];
        let instr = cmp::encode_cmp_rm8_imm8(gpr_or_memory, imm8);
        assert_eq!(expected, instr.as_slice());
    }
    {
        let gpr_or_memory: GPROrMemory = GPROrMemory::GPR { gpr: GPR::R15B };
        let imm8: Immediate8 = Immediate8::from_i8(-15);
        let expected: &[u8] = &[0x41, 0x80, 0xFF, 0xF1];
        let instr = cmp::encode_cmp_rm8_imm8(gpr_or_memory, imm8);
        assert_eq!(expected, instr.as_slice());
    }
    {
        let gpr_or_memory: GPROrMemory = GPROrMemory::Memory { memory: Memory::Based { base: GPR::RAX, offset: Offset::NoOffset } };
        let imm8: Immediate8 = Immediate8::from_i8(1);
        let expected: &[u8] = &[0x80, 0x38, 0x01];
        let instr = cmp::encode_cmp_rm8_imm8(gpr_or_memory, imm8);
        assert_eq!(expected, instr.as_slice());
    }
}

#[test]
fn test_cmp_rm16_imm16() {
    {
        let gpr_or_memory: GPROrMemory = GPROrMemory::GPR { gpr: GPR::AX };
        let imm16: Immediate16 = Immediate16::from_i16(1);
        let expected: &[u8] = &[0x66, 0x81, 0xF8, 0x01, 0x00];
        let instr = cmp::encode_cmp_rm16_imm16(gpr_or_memory, imm16);
        assert_eq!(expected, instr.as_slice());
    }
}

#[test]
fn test_cmp_rm32_imm32() {
    {
        let gpr_or_memory: GPROrMemory = GPROrMemory::GPR { gpr: GPR::EAX };
        let imm32: Immediate32 = Immediate32::from_i32(1);
        let expected: &[u8] = &[0x81, 0xF8, 0x01, 0x00, 0x00, 0x00];
        let instr = cmp::encode_cmp_rm32_imm32(gpr_or_memory, imm32);
        assert_eq!(expected, instr.as_slice());
    }
}

#[test]
fn test_cmp_rm64_imm32() {
    {
        let gpr_or_memory: GPROrMemory = GPROrMemory::GPR { gpr: GPR::RAX };
        let imm32: Immediate32 = Immediate32::from_i32(1);
        let expected: &[u8] = &[0x48, 0x81, 0xF8, 0x01, 0x00, 0x00, 0x00];
        let instr = cmp::encode_cmp_rm64_imm32(gpr_or_memory, imm32);
        assert_eq!(expected, instr.as_slice());
    }
}

#[test]
fn test_cmp_rm8_reg8() {
    {
        let rm8: GPROrMemory = GPROrMemory::GPR { gpr: GPR::AL };
        let reg8: GPR = GPR::BL;
        let expected: &[u8] = &[0x38, 0xD8];
        let instr = cmp::encode_cmp_rm8_reg8(rm8, reg8);
        assert_eq!(expected, instr.as_slice());
    }
}

#[test]
fn test_cmp_rm16_reg16() {
    {
        let rm16: GPROrMemory = GPROrMemory::GPR { gpr: GPR::AX };
        let reg16: GPR = GPR::BX;
        let expected: &[u8] = &[0x66, 0x39, 0xD8];
        let instr = cmp::encode_cmp_rm16_reg16(rm16, reg16);
        assert_eq!(expected, instr.as_slice());
    }
}

#[test]
fn test_cmp_rm32_reg32() {
    {
        let rm32: GPROrMemory = GPROrMemory::GPR { gpr: GPR::EAX };
        let reg32: GPR = GPR::EBX;
        let expected: &[u8] = &[0x39, 0xD8];
        let instr = cmp::encode_cmp_rm32_reg32(rm32, reg32);
        assert_eq!(expected, instr.as_slice());
    }
}

#[test]
fn test_cmp_rm64_reg64() {
    {
        let rm64: GPROrMemory = GPROrMemory::GPR { gpr: GPR::RAX };
        let reg64: GPR = GPR::RBX;
        let expected: &[u8] = &[0x48, 0x39, 0xD8];
        let instr = cmp::encode_cmp_rm64_reg64(rm64, reg64);
        assert_eq!(expected, instr.as_slice());
    }
}

#[test]
fn test_cmp_reg8_rm8() {
    {
        let reg8: GPR = GPR::AL;
        let rm8: GPROrMemory = GPROrMemory::GPR { gpr: GPR::BL };
        let expected: &[u8] = &[0x3A, 0xC3];
        let instr = cmp::encode_cmp_reg8_rm8(reg8, rm8);
        assert_eq!(expected, instr.as_slice());
    }
}

#[test]
fn test_cmp_reg16_rm16() {
    {
        let reg16: GPR = GPR::AX;
        let rm16: GPROrMemory = GPROrMemory::GPR { gpr: GPR::BX };
        let expected: &[u8] = &[0x66, 0x3B, 0xC3];
        let instr = cmp::encode_cmp_reg16_rm16(reg16, rm16);
        assert_eq!(expected, instr.as_slice());
    }
}

#[test]
fn test_cmp_reg32_rm32() {
    {
        let reg32: GPR = GPR::EAX;
        let rm32: GPROrMemory = GPROrMemory::GPR { gpr: GPR::EBX };
        let expected: &[u8] = &[0x3B, 0xC3];
        let instr = cmp::encode_cmp_reg32_rm32(reg32, rm32);
        assert_eq!(expected, instr.as_slice());
    }
}

#[test]
fn test_cmp_reg64_rm64() {
    {
        let reg64: GPR = GPR::RAX;
        let rm64: GPROrMemory = GPROrMemory::GPR { gpr: GPR::RBX };
        let expected: &[u8] = &[0x48, 0x3B, 0xC3];
        let instr = cmp::encode_cmp_reg64_rm64(reg64, rm64);
        assert_eq!(expected, instr.as_slice());
    }
}

#[test]
fn test_cmp_rm16_imm8() {
    {
        let gpr_or_memory: GPROrMemory = GPROrMemory::GPR { gpr: GPR::AX };
        let imm8: Immediate8 = Immediate8::from_i8(1);
        let expected: &[u8] = &[0x66, 0x83, 0xF8, 0x01];
        let instr = cmp::encode_cmp_rm16_imm8(gpr_or_memory, imm8);
        assert_eq!(expected, instr.as_slice());
    }
}

#[test]
fn test_cmp_rm32_imm8() {
    {
        let gpr_or_memory: GPROrMemory = GPROrMemory::GPR { gpr: GPR::EAX };
        let imm8: Immediate8 = Immediate8::from_i8(1);
        let expected: &[u8] = &[0x83, 0xF8, 0x01];
        let instr = cmp::encode_cmp_rm32_imm8(gpr_or_memory, imm8);
        assert_eq!(expected, instr.as_slice());
    }
}

#[test]
fn test_cmp_rm64_imm8() {
    {
        let gpr_or_memory: GPROrMemory = GPROrMemory::GPR { gpr: GPR::RAX };
        let imm8: Immediate8 = Immediate8::from_i8(1);
        let expected: &[u8] = &[0x48, 0x83, 0xF8, 0x01];
        let instr = cmp::encode_cmp_rm64_imm8(gpr_or_memory, imm8);
        assert_eq!(expected, instr.as_slice());
    }
}
