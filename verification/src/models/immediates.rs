//! Immediate operands and their bytes.
use vstd::prelude::*;

verus! {

/// The `width` low-order bytes of `value`, least significant first. For a
/// negative `value` these are the bytes of its two's complement.
pub open spec fn little_endian(value: int, width: nat) -> Seq<u8>
    decreases width,
{
    if width == 0 {
        Seq::empty()
    } else {
        seq![(value % 256) as u8].add(little_endian(value / 256, (width - 1) as nat))
    }
}

/// Adding a multiple of 256 to the power of `width` changes none of the
/// `width` low-order bytes: a signed number and its two's complement have the
/// same bytes.
pub proof fn lemma_little_endian_wraps(value: int, width: nat, modulus: int, turns: int)
    requires
        modulus == vstd::arithmetic::power::pow(256, width),
    ensures
        little_endian(value + turns * modulus, width) == little_endian(value, width),
    decreases width,
{
    if width == 0 {
    } else {
        let rest = vstd::arithmetic::power::pow(256, (width - 1) as nat);
        vstd::arithmetic::power::lemma_pow_positive(256, (width - 1) as nat);
        assert(modulus == 256 * rest) by {
            reveal(vstd::arithmetic::power::pow);
        }
        assert(turns * modulus == 256 * (turns * rest)) by (nonlinear_arith)
            requires
                modulus == 256 * rest,
        ;
        let shift = turns * rest;
        assert((value + 256 * shift) % 256 == value % 256) by {
            vstd::arithmetic::div_mod::lemma_mod_multiples_vanish(shift, value, 256);
        }
        assert((value + 256 * shift) / 256 == value / 256 + shift) by {
            vstd::arithmetic::div_mod::lemma_div_multiples_vanish_fancy(shift, value % 256, 256);
            vstd::arithmetic::div_mod::lemma_fundamental_div_mod(value, 256);
            vstd::arithmetic::div_mod::lemma_fundamental_div_mod(value + 256 * shift, 256);
        }
        lemma_little_endian_wraps(value / 256, (width - 1) as nat, rest, turns);
    }
}

/// There are as many bytes as the width asks for.
pub proof fn lemma_little_endian_len(value: int, width: nat)
    ensures
        little_endian(value, width).len() == width,
    decreases width,
{
    if width > 0 {
        lemma_little_endian_len(value / 256, (width - 1) as nat);
    }
}

/// An 8-bit immediate value.
#[derive(Debug, Clone, Copy, PartialEq, Eq, Structural, Hash)]
#[must_use]
pub struct Immediate8 {
    value: u8,
}

impl Immediate8 {
    /// The immediate read as an unsigned number.
    pub closed spec fn spec_value(&self) -> u8 {
        self.value
    }

    /// The immediate read as a signed number in two's complement.
    pub open spec fn signed(&self) -> int {
        if self.spec_value() < 0x80 {
            self.spec_value() as int
        } else {
            self.spec_value() - 0x100
        }
    }

    /// The bytes that stand for the immediate in an instruction.
    pub open spec fn bytes(&self) -> Seq<u8> {
        little_endian(self.spec_value() as int, 1)
    }

    /// The bytes of the immediate are those of its signed reading in two's
    /// complement, one in number.
    pub proof fn lemma_bytes_are_twos_complement(self)
        ensures
            self.bytes() == little_endian(self.signed(), 1),
            self.bytes().len() == 1,
    {
        assert(vstd::arithmetic::power::pow(256, 1) == 0x100) by {
            reveal_with_fuel(vstd::arithmetic::power::pow, 2);
        }
        lemma_little_endian_wraps(self.signed(), 1, 0x100, 1);
        lemma_little_endian_len(self.spec_value() as int, 1);
    }

    /// The immediate whose unsigned reading is `value`.
    pub fn from_u8(value: u8) -> (imm: Self)
        ensures
            imm.spec_value() == value,
    {
        Self { value }
    }

    /// The immediate whose signed reading is `value`: its two's complement.
    pub fn from_i8(value: i8) -> (imm: Self)
        ensures
            imm.signed() == value,
            imm.bytes() == little_endian(value as int, 1),
    {
        let raw = value as u8;
        assert(raw == if value >= 0 { value as int } else { value + 0x100 }) by (bit_vector)
            requires
                raw == value as u8,
        ;
        proof {
            assert(vstd::arithmetic::power::pow(256, 1) == 0x100) by {
                reveal_with_fuel(vstd::arithmetic::power::pow, 2);
            }
            if value < 0 {
                lemma_little_endian_wraps(value as int, 1, 0x100, 1);
            }
        }
        Self { value: raw }
    }

    /// The immediate read as an unsigned number.
    #[verifier::when_used_as_spec(spec_value)]
    #[must_use]
    pub fn value(&self) -> (value: u8)
        ensures
            value == self.spec_value(),
    {
        self.value
    }

    /// The bytes of the immediate, least significant first.
    #[must_use]
    pub fn encode(self) -> (bytes: [u8; 1])
        ensures
            bytes@ == self.bytes(),
    {
        let value = self.value;
        let bytes = [value];
        proof {
            reveal_with_fuel(little_endian, 2);
            assert(bytes@ =~= self.bytes());
        }
        bytes
    }
}

/// A 16-bit immediate value.
#[derive(Debug, Clone, Copy, PartialEq, Eq, Structural, Hash)]
#[must_use]
pub struct Immediate16 {
    value: u16,
}

impl Immediate16 {
    /// The immediate read as an unsigned number.
    pub closed spec fn spec_value(&self) -> u16 {
        self.value
    }

    /// The immediate read as a signed number in two's complement.
    pub open spec fn signed(&self) -> int {
        if self.spec_value() < 0x8000 {
            self.spec_value() as int
        } else {
            self.spec_value() - 0x1_0000
        }
    }

    /// The bytes that stand for the immediate in an instruction.
    pub open spec fn bytes(&self) -> Seq<u8> {
        little_endian(self.spec_value() as int, 2)
    }

    /// Widens `value` with zero bits: the unsigned reading stays.
    pub fn from_imm8_zero_extended(value: Immediate8) -> (imm: Self)
        ensures
            imm.spec_value() == value.spec_value(),
    {
        Self::from_u16(value.value() as u16)
    }

    /// Widens `value` with copies of its sign bit: the signed reading stays.
    pub fn from_imm8_sign_extended(value: Immediate8) -> (imm: Self)
        ensures
            imm.signed() == value.signed(),
    {
        let raw = value.value();
        let narrow = raw as i8;
        assert(narrow == if raw < 0x80 { raw as int } else { raw - 0x100 }) by (bit_vector)
            requires
                narrow == raw as i8,
        ;
        Self::from_i16(narrow as i16)
    }

    /// The bytes of the immediate are those of its signed reading in two's
    /// complement, two in number.
    pub proof fn lemma_bytes_are_twos_complement(self)
        ensures
            self.bytes() == little_endian(self.signed(), 2),
            self.bytes().len() == 2,
    {
        assert(vstd::arithmetic::power::pow(256, 2) == 0x1_0000) by {
            reveal_with_fuel(vstd::arithmetic::power::pow, 3);
        }
        lemma_little_endian_wraps(self.signed(), 2, 0x1_0000, 1);
        lemma_little_endian_len(self.spec_value() as int, 2);
    }

    /// The immediate whose unsigned reading is `value`.
    pub fn from_u16(value: u16) -> (imm: Self)
        ensures
            imm.spec_value() == value,
    {
        Self { value }
    }

    /// The immediate whose signed reading is `value`: its two's complement.
    pub fn from_i16(value: i16) -> (imm: Self)
        ensures
            imm.signed() == value,
            imm.bytes() == little_endian(value as int, 2),
    {
        let raw = value as u16;
        assert(raw == if value >= 0 { value as int } else { value + 0x1_0000 }) by (bit_vector)
            requires
                raw == value as u16,
        ;
        proof {
            assert(vstd::arithmetic::power::pow(256, 2) == 0x1_0000) by {
                reveal_with_fuel(vstd::arithmetic::power::pow, 3);
            }
            if value < 0 {
                lemma_little_endian_wraps(value as int, 2, 0x1_0000, 1);
            }
        }
        Self { value: raw }
    }

    /// The immediate read as an unsigned number.
    #[verifier::when_used_as_spec(spec_value)]
    #[must_use]
    pub fn value(&self) -> (value: u16)
        ensures
            value == self.spec_value(),
    {
        self.value
    }

    /// The bytes of the immediate, least significant first.
    #[must_use]
    pub fn encode(self) -> (bytes: [u8; 2])
        ensures
            bytes@ == self.bytes(),
    {
        let value = self.value;
        let bytes = [
            (value & 0xff) as u8,
            ((value >> 8) & 0xff) as u8,
        ];
        assert(value & 0xff == value % 256
            && (value >> 8) & 0xff == (value / 256) % 256) by (bit_vector);
        proof {
            reveal_with_fuel(little_endian, 3);
            assert(bytes@ =~= self.bytes());
        }
        bytes
    }
}

/// A 32-bit immediate value.
#[derive(Debug, Clone, Copy, PartialEq, Eq, Structural, Hash)]
#[must_use]
pub struct Immediate32 {
    value: u32,
}

impl Immediate32 {
    /// The immediate read as an unsigned number.
    pub closed spec fn spec_value(&self) -> u32 {
        self.value
    }

    /// The immediate read as a signed number in two's complement.
    pub open spec fn signed(&self) -> int {
        if self.spec_value() < 0x8000_0000 {
            self.spec_value() as int
        } else {
            self.spec_value() - 0x1_0000_0000
        }
    }

    /// The bytes that stand for the immediate in an instruction.
    pub open spec fn bytes(&self) -> Seq<u8> {
        little_endian(self.spec_value() as int, 4)
    }

    /// Widens `value` with zero bits: the unsigned reading stays.
    pub fn from_imm8_zero_extended(value: Immediate8) -> (imm: Self)
        ensures
            imm.spec_value() == value.spec_value(),
    {
        Self::from_u32(value.value() as u32)
    }

    /// Widens `value` with copies of its sign bit: the signed reading stays.
    pub fn from_imm8_sign_extended(value: Immediate8) -> (imm: Self)
        ensures
            imm.signed() == value.signed(),
    {
        let raw = value.value();
        let narrow = raw as i8;
        assert(narrow == if raw < 0x80 { raw as int } else { raw - 0x100 }) by (bit_vector)
            requires
                narrow == raw as i8,
        ;
        Self::from_i32(narrow as i32)
    }

    /// Widens `value` with zero bits: the unsigned reading stays.
    pub fn from_imm16_zero_extended(value: Immediate16) -> (imm: Self)
        ensures
            imm.spec_value() == value.spec_value(),
    {
        Self::from_u32(value.value() as u32)
    }

    /// Widens `value` with copies of its sign bit: the signed reading stays.
    pub fn from_imm16_sign_extended(value: Immediate16) -> (imm: Self)
        ensures
            imm.signed() == value.signed(),
    {
        let raw = value.value();
        let narrow = raw as i16;
        assert(narrow == if raw < 0x8000 { raw as int } else { raw - 0x1_0000 }) by (bit_vector)
            requires
                narrow == raw as i16,
        ;
        Self::from_i32(narrow as i32)
    }

    /// The bytes of the immediate are those of its signed reading in two's
    /// complement, four in number.
    pub proof fn lemma_bytes_are_twos_complement(self)
        ensures
            self.bytes() == little_endian(self.signed(), 4),
            self.bytes().len() == 4,
    {
        assert(vstd::arithmetic::power::pow(256, 4) == 0x1_0000_0000) by {
            reveal_with_fuel(vstd::arithmetic::power::pow, 5);
        }
        lemma_little_endian_wraps(self.signed(), 4, 0x1_0000_0000, 1);
        lemma_little_endian_len(self.spec_value() as int, 4);
    }

    /// The immediate whose unsigned reading is `value`.
    pub fn from_u32(value: u32) -> (imm: Self)
        ensures
            imm.spec_value() == value,
    {
        Self { value }
    }

    /// The immediate whose signed reading is `value`: its two's complement.
    pub fn from_i32(value: i32) -> (imm: Self)
        ensures
            imm.signed() == value,
            imm.bytes() == little_endian(value as int, 4),
    {
        let raw = value as u32;
        assert(raw == if value >= 0 { value as int } else { value + 0x1_0000_0000 }) by (bit_vector)
            requires
                raw == value as u32,
        ;
        proof {
            assert(vstd::arithmetic::power::pow(256, 4) == 0x1_0000_0000) by {
                reveal_with_fuel(vstd::arithmetic::power::pow, 5);
            }
            if value < 0 {
                lemma_little_endian_wraps(value as int, 4, 0x1_0000_0000, 1);
            }
        }
        Self { value: raw }
    }

    /// The immediate read as an unsigned number.
    #[verifier::when_used_as_spec(spec_value)]
    #[must_use]
    pub fn value(&self) -> (value: u32)
        ensures
            value == self.spec_value(),
    {
        self.value
    }

    /// The bytes of the immediate, least significant first.
    #[must_use]
    pub fn encode(self) -> (bytes: [u8; 4])
        ensures
            bytes@ == self.bytes(),
    {
        let value = self.value;
        let bytes = [
            (value & 0xff) as u8,
            ((value >> 8) & 0xff) as u8,
            ((value >> 16) & 0xff) as u8,
            ((value >> 24) & 0xff) as u8,
        ];
        assert(value & 0xff == value % 256
            && (value >> 8) & 0xff == (value / 256) % 256
            && (value >> 16) & 0xff == ((value / 256) / 256) % 256
            && (value >> 24) & 0xff == (((value / 256) / 256) / 256) % 256) by (bit_vector);
        proof {
            reveal_with_fuel(little_endian, 5);
            assert(bytes@ =~= self.bytes());
        }
        bytes
    }
}

/// A 64-bit immediate value.
#[derive(Debug, Clone, Copy, PartialEq, Eq, Structural, Hash)]
#[must_use]
pub struct Immediate64 {
    value: u64,
}

impl Immediate64 {
    /// The immediate read as an unsigned number.
    pub closed spec fn spec_value(&self) -> u64 {
        self.value
    }

    /// The immediate read as a signed number in two's complement.
    pub open spec fn signed(&self) -> int {
        if self.spec_value() < 0x8000_0000_0000_0000 {
            self.spec_value() as int
        } else {
            self.spec_value() - 0x1_0000_0000_0000_0000
        }
    }

    /// The bytes that stand for the immediate in an instruction.
    pub open spec fn bytes(&self) -> Seq<u8> {
        little_endian(self.spec_value() as int, 8)
    }

    /// Widens `value` with zero bits: the unsigned reading stays.
    pub fn from_imm8_zero_extended(value: Immediate8) -> (imm: Self)
        ensures
            imm.spec_value() == value.spec_value(),
    {
        Self::from_u64(value.value() as u64)
    }

    /// Widens `value` with copies of its sign bit: the signed reading stays.
    pub fn from_imm8_sign_extended(value: Immediate8) -> (imm: Self)
        ensures
            imm.signed() == value.signed(),
    {
        let raw = value.value();
        let narrow = raw as i8;
        assert(narrow == if raw < 0x80 { raw as int } else { raw - 0x100 }) by (bit_vector)
            requires
                narrow == raw as i8,
        ;
        Self::from_i64(narrow as i64)
    }

    /// Widens `value` with zero bits: the unsigned reading stays.
    pub fn from_imm16_zero_extended(value: Immediate16) -> (imm: Self)
        ensures
            imm.spec_value() == value.spec_value(),
    {
        Self::from_u64(value.value() as u64)
    }

    /// Widens `value` with copies of its sign bit: the signed reading stays.
    pub fn from_imm16_sign_extended(value: Immediate16) -> (imm: Self)
        ensures
            imm.signed() == value.signed(),
    {
        let raw = value.value();
        let narrow = raw as i16;
        assert(narrow == if raw < 0x8000 { raw as int } else { raw - 0x1_0000 }) by (bit_vector)
            requires
                narrow == raw as i16,
        ;
        Self::from_i64(narrow as i64)
    }

    /// Widens `value` with zero bits: the unsigned reading stays.
    pub fn from_imm32_zero_extended(value: Immediate32) -> (imm: Self)
        ensures
            imm.spec_value() == value.spec_value(),
    {
        Self::from_u64(value.value() as u64)
    }

    /// Widens `value` with copies of its sign bit: the signed reading stays.
    pub fn from_imm32_sign_extended(value: Immediate32) -> (imm: Self)
        ensures
            imm.signed() == value.signed(),
    {
        let raw = value.value();
        let narrow = raw as i32;
        assert(narrow == if raw < 0x8000_0000 { raw as int } else { raw - 0x1_0000_0000 }) by (bit_vector)
            requires
                narrow == raw as i32,
        ;
        Self::from_i64(narrow as i64)
    }

    /// The bytes of the immediate are those of its signed reading in two's
    /// complement, eight in number.
    pub proof fn lemma_bytes_are_twos_complement(self)
        ensures
            self.bytes() == little_endian(self.signed(), 8),
            self.bytes().len() == 8,
    {
        assert(vstd::arithmetic::power::pow(256, 8) == 0x1_0000_0000_0000_0000) by {
            reveal_with_fuel(vstd::arithmetic::power::pow, 9);
        }
        lemma_little_endian_wraps(self.signed(), 8, 0x1_0000_0000_0000_0000, 1);
        lemma_little_endian_len(self.spec_value() as int, 8);
    }

    /// The immediate whose unsigned reading is `value`.
    pub fn from_u64(value: u64) -> (imm: Self)
        ensures
            imm.spec_value() == value,
    {
        Self { value }
    }

    /// The immediate whose signed reading is `value`: its two's complement.
    pub fn from_i64(value: i64) -> (imm: Self)
        ensures
            imm.signed() == value,
            imm.bytes() == little_endian(value as int, 8),
    {
        let raw = value as u64;
        assert(raw == if value >= 0 { value as int } else { value + 0x1_0000_0000_0000_0000 }) by (bit_vector)
            requires
                raw == value as u64,
        ;
        proof {
            assert(vstd::arithmetic::power::pow(256, 8) == 0x1_0000_0000_0000_0000) by {
                reveal_with_fuel(vstd::arithmetic::power::pow, 9);
            }
            if value < 0 {
                lemma_little_endian_wraps(value as int, 8, 0x1_0000_0000_0000_0000, 1);
            }
        }
        Self { value: raw }
    }

    /// The immediate read as an unsigned number.
    #[verifier::when_used_as_spec(spec_value)]
    #[must_use]
    pub fn value(&self) -> (value: u64)
        ensures
            value == self.spec_value(),
    {
        self.value
    }

    /// The bytes of the immediate, least significant first.
    #[must_use]
    pub fn encode(self) -> (bytes: [u8; 8])
        ensures
            bytes@ == self.bytes(),
    {
        let value = self.value;
        let bytes = [
            (value & 0xff) as u8,
            ((value >> 8) & 0xff) as u8,
            ((value >> 16) & 0xff) as u8,
            ((value >> 24) & 0xff) as u8,
            ((value >> 32) & 0xff) as u8,
            ((value >> 40) & 0xff) as u8,
            ((value >> 48) & 0xff) as u8,
            ((value >> 56) & 0xff) as u8,
        ];
        assert(value & 0xff == value % 256
            && (value >> 8) & 0xff == (value / 256) % 256
            && (value >> 16) & 0xff == ((value / 256) / 256) % 256
            && (value >> 24) & 0xff == (((value / 256) / 256) / 256) % 256
            && (value >> 32) & 0xff == ((((value / 256) / 256) / 256) / 256) % 256
            && (value >> 40) & 0xff == (((((value / 256) / 256) / 256) / 256) / 256) % 256
            && (value >> 48) & 0xff == ((((((value / 256) / 256) / 256) / 256) / 256) / 256) % 256
            && (value >> 56) & 0xff == (((((((value / 256) / 256) / 256) / 256) / 256) / 256) / 256) % 256) by (bit_vector);
        proof {
            reveal_with_fuel(little_endian, 9);
            assert(bytes@ =~= self.bytes());
        }
        bytes
    }
}

} // verus!
