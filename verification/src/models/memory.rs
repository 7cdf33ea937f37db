//! Memory operands.
use vstd::prelude::*;

use super::gpr::{GPRKind, GPR};
use super::immediates::{Immediate32, Immediate8};

verus! {

/// The factor by which the index register of a memory operand is multiplied.
#[derive(Debug, Clone, Copy, PartialEq, Eq, Structural, Hash)]
#[must_use]
pub enum Scale {
    Scale1,
    Scale2,
    Scale4,
    Scale8,
}

impl Scale {
    /// The two bits that stand for the scale in a SIB byte.
    pub open spec fn spec_index(self) -> u8 {
        match self {
            Scale::Scale1 => 0b00,
            Scale::Scale2 => 0b01,
            Scale::Scale4 => 0b10,
            Scale::Scale8 => 0b11,
        }
    }

    /// The factor itself.
    pub open spec fn factor(self) -> nat {
        match self {
            Scale::Scale1 => 1,
            Scale::Scale2 => 2,
            Scale::Scale4 => 4,
            Scale::Scale8 => 8,
        }
    }

    /// The two bits that stand for the scale in a SIB byte.
    #[verifier::when_used_as_spec(spec_index)]
    #[must_use]
    pub fn index(self) -> (bits: u8)
        ensures
            bits == self.spec_index(),
            bits < 4,
    {
        match self {
            Scale::Scale1 => 0b00,
            Scale::Scale2 => 0b01,
            Scale::Scale4 => 0b10,
            Scale::Scale8 => 0b11,
        }
    }
}

/// The displacement of a memory operand, always read as a signed number.
#[derive(Debug, Clone, Copy, PartialEq, Eq, Structural, Hash)]
#[must_use]
pub enum Offset {
    /// No displacement.
    NoOffset,
    /// A signed displacement of 8 bits.
    Bit8(Immediate8),
    /// A signed displacement of 32 bits.
    Bit32(Immediate32),
}

impl Offset {
    /// The displacement as a number; zero where there is none.
    pub open spec fn displacement(self) -> int {
        match self {
            Offset::NoOffset => 0,
            Offset::Bit8(imm8) => imm8.signed(),
            Offset::Bit32(imm32) => imm32.signed(),
        }
    }

    /// The displacement as a signed immediate of 32 bits: zero for `NoOffset`,
    /// the sign extension of a `Bit8`, a `Bit32` as it is.
    pub fn as_sign_extended_imm32(self) -> (imm32: Immediate32)
        ensures
            imm32.signed() == self.displacement(),
            self matches Offset::Bit32(imm) ==> imm32 == imm,
    {
        match self {
            Offset::NoOffset => Immediate32::from_u32(0),
            Offset::Bit8(imm8) => Immediate32::from_imm8_sign_extended(imm8),
            Offset::Bit32(imm32) => imm32,
        }
    }

    /// A displacement of 8 bits.
    pub fn from_i8(value: i8) -> (offset: Self)
        ensures
            offset is Bit8,
            offset.displacement() == value,
    {
        Offset::Bit8(Immediate8::from_i8(value))
    }

    /// A displacement of 32 bits.
    pub fn from_i32(value: i32) -> (offset: Self)
        ensures
            offset is Bit32,
            offset.displacement() == value,
    {
        Offset::Bit32(Immediate32::from_i32(value))
    }
}

/// A memory operand.
///
/// Every register in it has to be 64 bits wide, and RSP cannot be an index:
/// see [`Memory::is_valid`].
#[derive(Debug, Clone, Copy, PartialEq, Eq, Structural, Hash)]
#[must_use]
pub enum Memory {
    /// `[base + offset]`
    Based { base: GPR, offset: Offset },
    /// `[index * scale + offset]`
    Scaled { index: GPR, scale: Scale, offset: Offset },
    /// `[base + index * scale + offset]`
    BasedScaled { base: GPR, index: GPR, scale: Scale, offset: Offset },
    /// `[RIP + offset]`
    RelativeToRIP { offset: Offset },
}

/// Which of the registers of a memory operand are extended ones.
#[must_use]
pub struct BaseIndexIsExtended {
    pub base_is_extended: bool,
    pub index_is_extended: bool,
}

/// Whether `gpr` can be the base of a memory operand.
pub open spec fn is_valid_base(gpr: GPR) -> bool {
    gpr.spec_kind() == GPRKind::Bit64
}

/// Whether `gpr` can be the index of a memory operand: what stands for RSP
/// in the index field of a SIB byte means that there is no index.
pub open spec fn is_valid_index(gpr: GPR) -> bool {
    gpr.spec_kind() == GPRKind::Bit64 && gpr.spec_index() != 4
}

impl Memory {
    /// Whether the operand can be encoded.
    pub open spec fn is_valid(self) -> bool {
        match self {
            Memory::Based { base, .. } => is_valid_base(base),
            Memory::Scaled { index, .. } => is_valid_index(index),
            Memory::BasedScaled { base, index, .. } => is_valid_base(base) && is_valid_index(index),
            Memory::RelativeToRIP { .. } => true,
        }
    }

    /// Whether the operand has a base register, and an extended one.
    pub open spec fn base_is_extended(self) -> bool {
        match self {
            Memory::Based { base, .. } => base.spec_is_extended(),
            Memory::BasedScaled { base, .. } => base.spec_is_extended(),
            _ => false,
        }
    }

    /// Whether the operand has an index register, and an extended one.
    pub open spec fn index_is_extended(self) -> bool {
        match self {
            Memory::Scaled { index, .. } => index.spec_is_extended(),
            Memory::BasedScaled { index, .. } => index.spec_is_extended(),
            _ => false,
        }
    }

    /// Whether the operand can be encoded.
    #[must_use]
    pub fn check_valid(&self) -> (valid: bool)
        ensures
            valid == self.is_valid(),
    {
        match self {
            Memory::Based { base, .. } => base.kind().equals(GPRKind::Bit64),
            Memory::Scaled { index, .. } => index.kind().equals(GPRKind::Bit64) && index.index()
                != 4,
            Memory::BasedScaled { base, index, .. } => base.kind().equals(GPRKind::Bit64)
                && index.kind().equals(GPRKind::Bit64) && index.index() != 4,
            Memory::RelativeToRIP { .. } => true,
        }
    }

    /// Which of the registers of the operand are extended ones.
    pub fn base_index_is_extended(&self) -> (extended: BaseIndexIsExtended)
        ensures
            extended.base_is_extended == self.base_is_extended(),
            extended.index_is_extended == self.index_is_extended(),
    {
        match self {
            Memory::Based { base, .. } => BaseIndexIsExtended {
                base_is_extended: base.is_extended(),
                index_is_extended: false,
            },
            Memory::Scaled { index, .. } => BaseIndexIsExtended {
                base_is_extended: false,
                index_is_extended: index.is_extended(),
            },
            Memory::BasedScaled { base, index, .. } => BaseIndexIsExtended {
                base_is_extended: base.is_extended(),
                index_is_extended: index.is_extended(),
            },
            Memory::RelativeToRIP { .. } => BaseIndexIsExtended {
                base_is_extended: false,
                index_is_extended: false,
            },
        }
    }
}

} // verus!
