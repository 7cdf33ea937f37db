//! Operand sizes.
use vstd::prelude::*;

verus! {

/// The operand sizes of the x86-64 instruction set that the encoders use.
#[derive(Debug, Clone, Copy, PartialEq, Eq, Structural, PartialOrd, Ord, Hash)]
#[must_use]
pub enum Size {
    Bit8,
    Bit16,
    Bit32,
    Bit64,
}

impl Size {
    /// The number that stands for the size: 1 for 8 bits up to 4 for 64 bits.
    pub open spec fn number(self) -> u8 {
        match self {
            Size::Bit8 => 1,
            Size::Bit16 => 2,
            Size::Bit32 => 3,
            Size::Bit64 => 4,
        }
    }

    /// The width of the size in bits.
    pub open spec fn bits(self) -> nat {
        match self {
            Size::Bit8 => 8,
            Size::Bit16 => 16,
            Size::Bit32 => 32,
            Size::Bit64 => 64,
        }
    }

    /// The number that stands for the size.
    #[must_use]
    pub fn as_u8(self) -> (number: u8)
        ensures
            number == self.number(),
            1 <= number <= 4,
    {
        match self {
            Size::Bit8 => 1,
            Size::Bit16 => 2,
            Size::Bit32 => 3,
            Size::Bit64 => 4,
        }
    }

    /// The size that `index` stands for.
    pub fn from_u8_unchecked(index: u8) -> (size: Self)
        requires
            1 <= index <= 4,
        ensures
            size.number() == index,
    {
        if index == 1 {
            Size::Bit8
        } else if index == 2 {
            Size::Bit16
        } else if index == 3 {
            Size::Bit32
        } else {
            Size::Bit64
        }
    }

    /// The size that `value` stands for, if it lies in `1..=4`.
    #[must_use]
    pub fn from_u8(value: u8) -> (size: Option<Self>)
        ensures
            size is Some <==> 1 <= value <= 4,
            size matches Some(s) ==> s.number() == value,
    {
        if value == 0 || value > 4 {
            return None;
        }
        Some(Self::from_u8_unchecked(value))
    }

    /// The same as the `==` operator.
    #[must_use]
    pub fn equals(self, other: Self) -> (same: bool)
        ensures
            same <==> self == other,
    {
        self.as_u8() == other.as_u8()
    }
}

/// Two sizes are the same when their numbers are.
pub proof fn lemma_size_number_injective(a: Size, b: Size)
    ensures
        a.number() == b.number() <==> a == b,
{
}

} // verus!
