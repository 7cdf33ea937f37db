use osom_encoders_x86_64::encoders::mnemonics::{InvalidMnemonicError, Mnemonic};
use osom_encoders_x86_64::fixed_buffer::FixedBuffer;
use osom_encoders_x86_64::models::{
    EncodedX86_64Instruction, GPRKind, GPROrMemory, Immediate16, Immediate32, Immediate64,
    Immediate8, Memory, NewGPRError, Offset, Scale, Size, GPR,
};
use std::mem::size_of;

#[test]
fn test_gpr_size() {
    assert_eq!(GPR::RAX.size(), Size::Bit64);
    assert_eq!(GPR::EAX.size(), Size::Bit32);
    assert_eq!(GPR::AX.size(), Size::Bit16);
    assert_eq!(GPR::AL.size(), Size::Bit8);
    assert_eq!(GPR::AH.size(), Size::Bit8);
    assert_eq!(GPR::R8.size(), Size::Bit64);
    assert_eq!(GPR::R8D.size(), Size::Bit32);
    assert_eq!(GPR::R8W.size(), Size::Bit16);
    assert_eq!(GPR::R8B.size(), Size::Bit8);
}

#[test]
fn test_gpr_new_accepts_what_is_valid() {
    let kinds = [GPRKind::Bit8, GPRKind::Bit16, GPRKind::Bit32, GPRKind::Bit64];
    for kind in kinds {
        for index in 0u8..32 {
            let gpr = GPR::new(kind, index).unwrap();
            assert_eq!(gpr.kind(), kind);
            assert_eq!(gpr.index(), index);
            assert_eq!(gpr.lower_3_bits_index(), index & 0b111);
            assert_eq!(gpr.is_extended(), index >= 8);
            assert_eq!(gpr.is_apx(), index >= 16);
            assert_eq!(gpr.index_matches_bit8_high(), (4..=7).contains(&index));
        }
    }
    for index in 4u8..=7 {
        let gpr = GPR::new(GPRKind::Bit8High, index).unwrap();
        assert_eq!(gpr.kind(), GPRKind::Bit8High);
        assert_eq!(gpr.index(), index);
        assert_eq!(gpr.size(), Size::Bit8);
    }
}

#[test]
fn test_gpr_new_rejects_what_is_not() {
    for index in [0u8, 1, 2, 3, 8, 15, 31, 32, 255] {
        assert_eq!(GPR::new(GPRKind::Bit8High, index), Err(NewGPRError::InvalidBit8HighIndex));
    }
    for kind in [GPRKind::Bit8, GPRKind::Bit16, GPRKind::Bit32, GPRKind::Bit64] {
        for index in [32u8, 33, 100, 255] {
            assert_eq!(GPR::new(kind, index), Err(NewGPRError::IndexOutOfRange));
        }
    }
}

#[test]
fn test_gpr_named_registers() {
    assert_eq!(GPR::new(GPRKind::Bit64, 16), Ok(GPR::R16));
    assert_eq!(GPR::new(GPRKind::Bit32, 31), Ok(GPR::R31D));
    assert_eq!(GPR::new(GPRKind::Bit16, 20), Ok(GPR::R20W));
    assert_eq!(GPR::new(GPRKind::Bit8, 17), Ok(GPR::R17B));
    assert_eq!(GPR::new_unchecked(GPRKind::Bit64, 0), GPR::RAX);
    assert_eq!(GPR::RSP, GPR::new(GPRKind::Bit64, 4).unwrap());
    assert_eq!(GPR::R12, GPR::new(GPRKind::Bit64, 12).unwrap());
    assert_eq!(GPR::R15D, GPR::new(GPRKind::Bit32, 15).unwrap());
    assert_eq!(GPR::DI, GPR::new(GPRKind::Bit16, 7).unwrap());
    assert_eq!(GPR::SPL, GPR::new(GPRKind::Bit8, 4).unwrap());
    assert_eq!(GPR::AH, GPR::new(GPRKind::Bit8High, 4).unwrap());
    assert_eq!(GPR::BH, GPR::new(GPRKind::Bit8High, 7).unwrap());
    assert!(GPR::SPL.equals(&GPR::SPL));
    assert!(!GPR::SPL.equals(&GPR::AH));
    assert!(!GPR::RAX.equals(&GPR::EAX));
    assert!(!GPR::RAX.equals(&GPR::RCX));
    assert_ne!(GPR::SPL, GPR::AH);
}

#[test]
fn test_kind_and_size_numbers() {
    assert_eq!(Size::from_u8(0), None);
    assert_eq!(Size::from_u8(1), Some(Size::Bit8));
    assert_eq!(Size::from_u8(2), Some(Size::Bit16));
    assert_eq!(Size::from_u8(3), Some(Size::Bit32));
    assert_eq!(Size::from_u8(4), Some(Size::Bit64));
    assert_eq!(Size::from_u8(5), None);
    assert_eq!(Size::Bit64.as_u8(), 4);
    assert_eq!(Size::from_u8_unchecked(3), Size::Bit32);
    assert!(Size::Bit16.equals(Size::Bit16));
    assert!(!Size::Bit16.equals(Size::Bit32));
    assert_eq!(GPRKind::from_u8(0), None);
    assert_eq!(GPRKind::from_u8(1), Some(GPRKind::Bit8High));
    assert_eq!(GPRKind::from_u8(2), Some(GPRKind::Bit8));
    assert_eq!(GPRKind::from_u8(5), Some(GPRKind::Bit64));
    assert_eq!(GPRKind::from_u8(6), None);
    assert_eq!(GPRKind::Bit32.as_u8(), 4);
    assert_eq!(GPRKind::from_u8_unchecked(3), GPRKind::Bit16);
    assert!(GPRKind::Bit8.equals(GPRKind::Bit8));
    assert!(!GPRKind::Bit8.equals(GPRKind::Bit8High));
    assert_eq!(GPRKind::Bit8High.size(), Size::Bit8);
    assert_eq!(GPRKind::Bit64.size(), Size::Bit64);
}

#[test]
fn test_scale_index() {
    assert_eq!(Scale::Scale1.index(), 0b00);
    assert_eq!(Scale::Scale2.index(), 0b01);
    assert_eq!(Scale::Scale4.index(), 0b10);
    assert_eq!(Scale::Scale8.index(), 0b11);
}

#[test]
fn test_immediate_encode_is_little_endian() {
    assert_eq!(Immediate8::from_u8(0xAB).encode(), [0xAB]);
    assert_eq!(Immediate16::from_u16(0x1234).encode(), [0x34, 0x12]);
    assert_eq!(Immediate32::from_u32(0x12345678).encode(), [0x78, 0x56, 0x34, 0x12]);
    assert_eq!(
        Immediate64::from_u64(0x0123456789ABCDEF).encode(),
        [0xEF, 0xCD, 0xAB, 0x89, 0x67, 0x45, 0x23, 0x01]
    );
}

#[test]
fn test_immediate_round_trip() {
    for v in [i8::MIN, -77, -1, 0, 1, 77, i8::MAX] {
        assert_eq!(Immediate8::from_i8(v).encode(), v.to_le_bytes());
    }
    for v in [i16::MIN, -500, -1, 0, 1, 500, i16::MAX] {
        assert_eq!(Immediate16::from_i16(v).encode(), v.to_le_bytes());
    }
    for v in [i32::MIN, -6321432, -1, 0, 1, 6321432, i32::MAX] {
        assert_eq!(Immediate32::from_i32(v).encode(), v.to_le_bytes());
    }
    for v in [i64::MIN, -21474836423811, -1, 0, 1, 21474836423811, i64::MAX] {
        assert_eq!(Immediate64::from_i64(v).encode(), v.to_le_bytes());
    }
    assert_eq!(Immediate32::from_i32(-2000).encode(), [0x30, 0xF8, 0xFF, 0xFF]);
    assert_eq!(Immediate8::from_i8(-15).value(), 0xF1);
}

#[test]
fn test_immediate16_extension() {
    assert_eq!(Immediate16::from_imm8_zero_extended(Immediate8::from_i8(0)).value(), 0);
    assert_eq!(Immediate16::from_imm8_zero_extended(Immediate8::from_i8(1)).value(), 1);
    assert_eq!(Immediate16::from_imm8_zero_extended(Immediate8::from_i8(-1)).value(), 0x00FF);
    assert_eq!(Immediate16::from_imm8_sign_extended(Immediate8::from_i8(0)).value(), 0);
    assert_eq!(Immediate16::from_imm8_sign_extended(Immediate8::from_i8(1)).value(), 1);
    assert_eq!(Immediate16::from_imm8_sign_extended(Immediate8::from_i8(-1)).value(), 0xFFFF);
    assert_eq!(
        Immediate16::from_imm8_sign_extended(Immediate8::from_i8(-1)),
        Immediate16::from_i16(-1)
    );
}

#[test]
fn test_immediate32_extension() {
    assert_eq!(Immediate32::from_imm8_zero_extended(Immediate8::from_i8(0)).value(), 0);
    assert_eq!(Immediate32::from_imm8_zero_extended(Immediate8::from_i8(1)).value(), 1);
    assert_eq!(Immediate32::from_imm8_zero_extended(Immediate8::from_i8(-1)).value(), 0x000000FF);
    assert_eq!(Immediate32::from_imm8_sign_extended(Immediate8::from_i8(0)).value(), 0);
    assert_eq!(Immediate32::from_imm8_sign_extended(Immediate8::from_i8(1)).value(), 1);
    assert_eq!(Immediate32::from_imm8_sign_extended(Immediate8::from_i8(-1)).value(), 0xFFFFFFFF);
    assert_eq!(Immediate32::from_imm16_zero_extended(Immediate16::from_i16(0)).value(), 0);
    assert_eq!(Immediate32::from_imm16_zero_extended(Immediate16::from_i16(1)).value(), 1);
    assert_eq!(Immediate32::from_imm16_zero_extended(Immediate16::from_i16(-200)).value(), 65336);
    assert_eq!(Immediate32::from_imm16_sign_extended(Immediate16::from_i16(1)).value(), 1);
    assert_eq!(
        Immediate32::from_imm16_sign_extended(Immediate16::from_i16(-1)),
        Immediate32::from_i32(-1)
    );
    assert_eq!(
        Immediate32::from_imm16_sign_extended(Immediate16::from_i16(-200)),
        Immediate32::from_i32(-200)
    );
}

#[test]
fn test_immediate64_extension() {
    assert_eq!(Immediate64::from_imm8_zero_extended(Immediate8::from_i8(0)).value(), 0);
    assert_eq!(Immediate64::from_imm8_zero_extended(Immediate8::from_i8(1)).value(), 1);
    assert_eq!(
        Immediate64::from_imm8_zero_extended(Immediate8::from_i8(-1)).value(),
        0x00000000000000FF
    );
    assert_eq!(Immediate64::from_imm8_sign_extended(Immediate8::from_i8(0)).value(), 0);
    assert_eq!(Immediate64::from_imm8_sign_extended(Immediate8::from_i8(1)).value(), 1);
    assert_eq!(
        Immediate64::from_imm8_sign_extended(Immediate8::from_i8(-1)).value(),
        0xFFFFFFFFFFFFFFFF
    );
    assert_eq!(Immediate64::from_imm16_zero_extended(Immediate16::from_i16(0)).value(), 0);
    assert_eq!(Immediate64::from_imm16_zero_extended(Immediate16::from_i16(1)).value(), 1);
    assert_eq!(Immediate64::from_imm16_zero_extended(Immediate16::from_i16(-1)).value(), 0xFFFF);
    assert_eq!(Immediate64::from_imm16_sign_extended(Immediate16::from_i16(1)).value(), 1);
    assert_eq!(
        Immediate64::from_imm16_sign_extended(Immediate16::from_i16(-1)),
        Immediate64::from_i64(-1)
    );
    assert_eq!(Immediate64::from_imm32_zero_extended(Immediate32::from_i32(0)).value(), 0);
    assert_eq!(Immediate64::from_imm32_zero_extended(Immediate32::from_i32(1)).value(), 1);
    assert_eq!(Immediate64::from_imm32_sign_extended(Immediate32::from_i32(1)).value(), 1);
    assert_eq!(
        Immediate64::from_imm32_sign_extended(Immediate32::from_i32(-1)),
        Immediate64::from_i64(-1)
    );
    assert_eq!(
        Immediate64::from_imm32_zero_extended(Immediate32::from_i32(-800000)),
        Immediate64::from_i64(0xFFF3CB00)
    );
    assert_eq!(
        Immediate64::from_imm32_sign_extended(Immediate32::from_i32(-800000)).value(),
        0xFFFFFFFFFFF3CB00
    );
    assert_eq!(
        Immediate64::from_imm32_sign_extended(Immediate32::from_i32(-800000)),
        Immediate64::from_i64(-800000)
    );
}

#[test]
fn test_offset_as_sign_extended_imm32() {
    assert_eq!(Offset::NoOffset.as_sign_extended_imm32(), Immediate32::from_u32(0));
    assert_eq!(Offset::from_i8(-2).as_sign_extended_imm32(), Immediate32::from_i32(-2));
    assert_eq!(Offset::from_i8(1).as_sign_extended_imm32(), Immediate32::from_i32(1));
    assert_eq!(Offset::from_i8(-128).as_sign_extended_imm32(), Immediate32::from_i32(-128));
    assert_eq!(Offset::from_i32(-2000).as_sign_extended_imm32(), Immediate32::from_i32(-2000));
    assert_eq!(Offset::from_i8(3), Offset::Bit8(Immediate8::from_i8(3)));
    assert_eq!(Offset::from_i32(3), Offset::Bit32(Immediate32::from_i32(3)));
}

#[test]
fn test_memory_validity() {
    assert!(Memory::Based { base: GPR::RAX, offset: Offset::NoOffset }.check_valid());
    assert!(!Memory::Based { base: GPR::EAX, offset: Offset::NoOffset }.check_valid());
    assert!(Memory::Scaled { index: GPR::R12, scale: Scale::Scale2, offset: Offset::NoOffset }
        .check_valid());
    assert!(!Memory::Scaled { index: GPR::RSP, scale: Scale::Scale2, offset: Offset::NoOffset }
        .check_valid());
    assert!(!Memory::BasedScaled {
        base: GPR::RAX,
        index: GPR::RSP,
        scale: Scale::Scale1,
        offset: Offset::NoOffset
    }
    .check_valid());
    assert!(!Memory::BasedScaled {
        base: GPR::AX,
        index: GPR::RBX,
        scale: Scale::Scale1,
        offset: Offset::NoOffset
    }
    .check_valid());
    assert!(Memory::RelativeToRIP { offset: Offset::NoOffset }.check_valid());
    assert!(GPROrMemory::GPR { gpr: GPR::AH }.check_valid_for(Size::Bit8));
    assert!(!GPROrMemory::GPR { gpr: GPR::AX }.check_valid_for(Size::Bit8));
    let memory = Memory::Based { base: GPR::RAX, offset: Offset::NoOffset };
    assert!(GPROrMemory::Memory { memory }.check_valid_for(Size::Bit8));
    assert!(GPROrMemory::Memory { memory }.check_valid_for(Size::Bit64));
    let ext = Memory::BasedScaled {
        base: GPR::R13,
        index: GPR::RAX,
        scale: Scale::Scale1,
        offset: Offset::NoOffset,
    }
    .base_index_is_extended();
    assert!(ext.base_is_extended);
    assert!(!ext.index_is_extended);
}

#[test]
fn test_fixed_buffer() {
    let mut buffer = FixedBuffer::<7>::new();
    assert_eq!(buffer.as_slice(), &[] as &[u8]);
    assert_eq!(buffer.as_slice().len(), 0);
    buffer.push_array([1, 2, 3]);
    assert_eq!(buffer.as_slice(), &[1, 2, 3]);
    buffer.push_slice(&[4, 5]);
    assert_eq!(buffer.as_slice(), &[1, 2, 3, 4, 5]);
    buffer.push_array([]);
    buffer.push_array([6, 7]);
    assert_eq!(buffer.as_slice(), &[1, 2, 3, 4, 5, 6, 7]);
    assert_eq!(buffer.as_slice().len(), 7);
    assert_eq!(buffer, FixedBuffer::<7>::from_array([1, 2, 3, 4, 5, 6, 7]));
    assert_ne!(buffer, FixedBuffer::<7>::from_array([1, 2, 3, 4, 5, 6]));
    assert_eq!(FixedBuffer::<15>::default(), FixedBuffer::<15>::new());
    let copy = buffer;
    assert_eq!(copy.as_slice(), buffer.as_slice());
}

#[test]
fn test_layout() {
    assert_eq!(size_of::<Size>(), 1);
    assert_eq!(size_of::<Option<Size>>(), 1);
    assert_eq!(size_of::<GPR>(), 1);
    assert_eq!(size_of::<Option<GPR>>(), 1);
    assert_eq!(size_of::<GPRKind>(), 1);
    assert_eq!(size_of::<Option<GPRKind>>(), 1);
    assert_eq!(size_of::<Scale>(), 1);
    assert_eq!(size_of::<Option<Scale>>(), 1);
    assert_eq!(size_of::<Offset>(), 8);
    assert_eq!(size_of::<Option<Offset>>(), 8);
    assert!(size_of::<Memory>() <= 16);
    assert!(size_of::<GPROrMemory>() <= 16);
    assert_eq!(size_of::<Immediate8>(), 1);
    assert_eq!(size_of::<Immediate16>(), 2);
    assert_eq!(size_of::<Immediate32>(), 4);
    assert_eq!(size_of::<Immediate64>(), 8);
    assert_eq!(size_of::<Mnemonic>(), 1);
    assert_eq!(size_of::<Option<Mnemonic>>(), 1);
    assert_eq!(size_of::<InvalidMnemonicError>(), 0);
    assert_eq!(size_of::<EncodedX86_64Instruction>(), 16);
    assert_eq!(EncodedX86_64Instruction::MAX_SIZE, 15);
}

#[test]
fn test_mnemonic_round_trip() {
    let all = [
        (Mnemonic::Add, "add"),
        (Mnemonic::Call, "call"),
        (Mnemonic::Cmp, "cmp"),
        (Mnemonic::Cpuid, "cpuid"),
        (Mnemonic::Int, "int"),
        (Mnemonic::Int1, "int1"),
        (Mnemonic::Int3, "int3"),
        (Mnemonic::Jcc, "jcc"),
        (Mnemonic::Jmp, "jmp"),
        (Mnemonic::Lea, "lea"),
        (Mnemonic::Lock, "lock"),
        (Mnemonic::Mov, "mov"),
        (Mnemonic::Nop, "nop"),
        (Mnemonic::Pop, "pop"),
        (Mnemonic::Push, "push"),
        (Mnemonic::Ret, "ret"),
        (Mnemonic::Xor, "xor"),
    ];
    let mut number = 1;
    for (mnemonic, text) in all {
        assert_eq!(mnemonic.as_str(), text);
        assert_eq!(Mnemonic::from_str(text), Ok(mnemonic));
        assert_eq!(Mnemonic::from_str(mnemonic.as_str()), Ok(mnemonic));
        assert_eq!(mnemonic.as_u8(), number);
        number += 1;
    }
    assert_eq!(Mnemonic::from_str("<unknown>"), Err(InvalidMnemonicError));
    assert_eq!(Mnemonic::from_str(""), Err(InvalidMnemonicError));
    assert_eq!(Mnemonic::from_str("ADD"), Err(InvalidMnemonicError));
    assert_eq!(Mnemonic::from_str("add "), Err(InvalidMnemonicError));
    assert_eq!(Mnemonic::from_str("int2"), Err(InvalidMnemonicError));
}
