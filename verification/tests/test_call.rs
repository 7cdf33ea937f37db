#![allow(non_snake_case)]
use osom_encoders_x86_64::encoders::call;
use osom_encoders_x86_64::models::{GPROrMemory, Immediate32, Memory, Offset, GPR};

#[test]
fn test_call_imm32() {
    {
        let imm32: i32 = 0x12345678;
        let expected: &[u8] = &[0xE8, 0x78, 0x56, 0x34, 0x12];
        let imm32 = Immediate32::from_i32(imm32);
        let instr = call::encode_call_imm32(imm32);
        assert_eq!(expected, instr.as_slice());
    }
}

#[test]
fn test_call_rm64() {
    {
        let rm64: GPROrMemory = GPROrMemory::GPR { gpr: GPR::RAX };
        let expected: &[u8] = &[0xFF, 0xD0];
        let instr = call::encode_call_rm64(rm64);
        assert_eq!(expected, instr.as_slice());
    }
    {
        let rm64: GPROrMemory = GPROrMemory::Memory { memory: Memory::Based { base: GPR::RDX, offset: Offset::from_i8(2) } };
        let expected: &[u8] = &[0xFF, 0x52, 0x02];
        let instr = call::encode_call_rm64(rm64);
        assert_eq!(expected, instr.as_slice());
    }
}
