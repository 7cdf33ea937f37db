//! General purpose registers.
use vstd::prelude::*;

use super::size::Size;

verus! {

/// The kind of a general purpose register.
#[derive(Debug, Clone, Copy, PartialEq, Eq, Structural, Hash)]
#[must_use]
pub enum GPRKind {
    /// The registers AH, CH, DH and BH.
    Bit8High,
    /// The registers AL, CL, DL, BL, SPL, BPL, SIL, DIL and R8B to R15B.
    Bit8,
    /// The registers AX, CX, DX, BX, SP, BP, SI, DI and R8W to R15W.
    Bit16,
    /// The registers EAX, ECX, EDX, EBX, ESP, EBP, ESI, EDI and R8D to R15D.
    Bit32,
    /// The registers RAX, RCX, RDX, RBX, RSP, RBP, RSI, RDI and R8 to R15.
    Bit64,
}

impl GPRKind {
    /// The number that stands for the kind, from 1 for `Bit8High` to 5 for
    /// `Bit64`.
    pub open spec fn number(self) -> u8 {
        match self {
            GPRKind::Bit8High => 1,
            GPRKind::Bit8 => 2,
            GPRKind::Bit16 => 3,
            GPRKind::Bit32 => 4,
            GPRKind::Bit64 => 5,
        }
    }

    /// The kind with the given number; `Bit64` where there is none.
    pub open spec fn of_number(number: u8) -> GPRKind {
        if number == 1 {
            GPRKind::Bit8High
        } else if number == 2 {
            GPRKind::Bit8
        } else if number == 3 {
            GPRKind::Bit16
        } else if number == 4 {
            GPRKind::Bit32
        } else {
            GPRKind::Bit64
        }
    }

    /// The size of the registers of this kind.
    pub open spec fn spec_size(self) -> Size {
        match self {
            GPRKind::Bit8 | GPRKind::Bit8High => Size::Bit8,
            GPRKind::Bit16 => Size::Bit16,
            GPRKind::Bit32 => Size::Bit32,
            GPRKind::Bit64 => Size::Bit64,
        }
    }

    /// The number that stands for the kind.
    #[must_use]
    pub fn as_u8(self) -> (number: u8)
        ensures
            number == self.number(),
            1 <= number <= 5,
    {
        match self {
            GPRKind::Bit8High => 1,
            GPRKind::Bit8 => 2,
            GPRKind::Bit16 => 3,
            GPRKind::Bit32 => 4,
            GPRKind::Bit64 => 5,
        }
    }

    /// The kind that `value` stands for.
    pub fn from_u8_unchecked(value: u8) -> (kind: Self)
        requires
            1 <= value <= 5,
        ensures
            kind.number() == value,
            kind == GPRKind::of_number(value),
    {
        if value == 1 {
            GPRKind::Bit8High
        } else if value == 2 {
            GPRKind::Bit8
        } else if value == 3 {
            GPRKind::Bit16
        } else if value == 4 {
            GPRKind::Bit32
        } else {
            GPRKind::Bit64
        }
    }

    /// The kind that `value` stands for, if it lies in `1..=5`.
    #[must_use]
    pub fn from_u8(value: u8) -> (kind: Option<Self>)
        ensures
            kind is Some <==> 1 <= value <= 5,
            kind matches Some(k) ==> k.number() == value,
    {
        if value == 0 || value > 5 {
            return None;
        }
        Some(Self::from_u8_unchecked(value))
    }

    /// The same as the `==` operator.
    #[must_use]
    pub fn equals(self, other: Self) -> (same: bool)
        ensures
            same <==> self == other,
    {
        self.as_u8() == other.as_u8()
    }

    /// The size of the registers of this kind.
    #[verifier::when_used_as_spec(spec_size)]
    pub fn size(self) -> (size: Size)
        ensures
            size == self.spec_size(),
    {
        match self {
            GPRKind::Bit8 | GPRKind::Bit8High => Size::Bit8,
            GPRKind::Bit16 => Size::Bit16,
            GPRKind::Bit32 => Size::Bit32,
            GPRKind::Bit64 => Size::Bit64,
        }
    }
}

/// A general purpose register: a kind and an index below 32.
///
/// The low four bits of the index are the architectural register number; the
/// fifth is kept for the registers of the Advanced Performance Extensions,
/// R16 to R31. A register of kind `Bit8High` has an index from 4 to 7.
/// There is one enumerator for each register, so that no value stands for
/// none, and a register takes one byte.
#[derive(Debug, Clone, Copy, PartialEq, Eq, Structural, Hash)]
#[must_use]
pub enum GPR {
    RAX,
    RCX,
    RDX,
    RBX,
    RSP,
    RBP,
    RSI,
    RDI,
    R8,
    R9,
    R10,
    R11,
    R12,
    R13,
    R14,
    R15,
    R16,
    R17,
    R18,
    R19,
    R20,
    R21,
    R22,
    R23,
    R24,
    R25,
    R26,
    R27,
    R28,
    R29,
    R30,
    R31,
    EAX,
    ECX,
    EDX,
    EBX,
    ESP,
    EBP,
    ESI,
    EDI,
    R8D,
    R9D,
    R10D,
    R11D,
    R12D,
    R13D,
    R14D,
    R15D,
    R16D,
    R17D,
    R18D,
    R19D,
    R20D,
    R21D,
    R22D,
    R23D,
    R24D,
    R25D,
    R26D,
    R27D,
    R28D,
    R29D,
    R30D,
    R31D,
    AX,
    CX,
    DX,
    BX,
    SP,
    BP,
    SI,
    DI,
    R8W,
    R9W,
    R10W,
    R11W,
    R12W,
    R13W,
    R14W,
    R15W,
    R16W,
    R17W,
    R18W,
    R19W,
    R20W,
    R21W,
    R22W,
    R23W,
    R24W,
    R25W,
    R26W,
    R27W,
    R28W,
    R29W,
    R30W,
    R31W,
    AL,
    CL,
    DL,
    BL,
    SPL,
    BPL,
    SIL,
    DIL,
    R8B,
    R9B,
    R10B,
    R11B,
    R12B,
    R13B,
    R14B,
    R15B,
    R16B,
    R17B,
    R18B,
    R19B,
    R20B,
    R21B,
    R22B,
    R23B,
    R24B,
    R25B,
    R26B,
    R27B,
    R28B,
    R29B,
    R30B,
    R31B,
    AH,
    CH,
    DH,
    BH,
}

/// Why a register could not be made.
#[derive(Debug, Clone, Copy, PartialEq, Eq, Structural, Hash)]
pub enum NewGPRError {
    /// The kind is [`GPRKind::Bit8High`] and the index lies outside `4..=7`.
    InvalidBit8HighIndex,
    /// The index lies outside `0..=31`.
    IndexOutOfRange,
}

/// Whether a kind and an index name a register.
pub open spec fn gpr_is_valid(kind: GPRKind, index: u8) -> bool {
    &&& index < 32
    &&& kind == GPRKind::Bit8High ==> 4 <= index <= 7
}

impl GPR {
    /// The kind of the register.
    pub open spec fn spec_kind(self) -> GPRKind {
        match self {
            GPR::RAX | GPR::RCX | GPR::RDX | GPR::RBX | GPR::RSP | GPR::RBP | GPR::RSI
            | GPR::RDI | GPR::R8 | GPR::R9 | GPR::R10 | GPR::R11 | GPR::R12 | GPR::R13
            | GPR::R14 | GPR::R15 | GPR::R16 | GPR::R17 | GPR::R18 | GPR::R19 | GPR::R20
            | GPR::R21 | GPR::R22 | GPR::R23 | GPR::R24 | GPR::R25 | GPR::R26 | GPR::R27
            | GPR::R28 | GPR::R29 | GPR::R30 | GPR::R31 => GPRKind::Bit64,
            GPR::EAX | GPR::ECX | GPR::EDX | GPR::EBX | GPR::ESP | GPR::EBP | GPR::ESI
            | GPR::EDI | GPR::R8D | GPR::R9D | GPR::R10D | GPR::R11D | GPR::R12D | GPR::R13D
            | GPR::R14D | GPR::R15D | GPR::R16D | GPR::R17D | GPR::R18D | GPR::R19D | GPR::R20D
            | GPR::R21D | GPR::R22D | GPR::R23D | GPR::R24D | GPR::R25D | GPR::R26D | GPR::R27D
            | GPR::R28D | GPR::R29D | GPR::R30D | GPR::R31D => GPRKind::Bit32,
            GPR::AX | GPR::CX | GPR::DX | GPR::BX | GPR::SP | GPR::BP | GPR::SI | GPR::DI
            | GPR::R8W | GPR::R9W | GPR::R10W | GPR::R11W | GPR::R12W | GPR::R13W | GPR::R14W
            | GPR::R15W | GPR::R16W | GPR::R17W | GPR::R18W | GPR::R19W | GPR::R20W | GPR::R21W
            | GPR::R22W | GPR::R23W | GPR::R24W | GPR::R25W | GPR::R26W | GPR::R27W | GPR::R28W
            | GPR::R29W | GPR::R30W | GPR::R31W => GPRKind::Bit16,
            GPR::AL | GPR::CL | GPR::DL | GPR::BL | GPR::SPL | GPR::BPL | GPR::SIL | GPR::DIL
            | GPR::R8B | GPR::R9B | GPR::R10B | GPR::R11B | GPR::R12B | GPR::R13B | GPR::R14B
            | GPR::R15B | GPR::R16B | GPR::R17B | GPR::R18B | GPR::R19B | GPR::R20B | GPR::R21B
            | GPR::R22B | GPR::R23B | GPR::R24B | GPR::R25B | GPR::R26B | GPR::R27B | GPR::R28B
            | GPR::R29B | GPR::R30B | GPR::R31B => GPRKind::Bit8,
            GPR::AH | GPR::CH | GPR::DH | GPR::BH => GPRKind::Bit8High,
        }
    }

    /// The index of the register.
    pub open spec fn spec_index(self) -> u8 {
        match self {
            GPR::RAX | GPR::EAX | GPR::AX | GPR::AL => 0,
            GPR::RCX | GPR::ECX | GPR::CX | GPR::CL => 1,
            GPR::RDX | GPR::EDX | GPR::DX | GPR::DL => 2,
            GPR::RBX | GPR::EBX | GPR::BX | GPR::BL => 3,
            GPR::RSP | GPR::ESP | GPR::SP | GPR::SPL | GPR::AH => 4,
            GPR::RBP | GPR::EBP | GPR::BP | GPR::BPL | GPR::CH => 5,
            GPR::RSI | GPR::ESI | GPR::SI | GPR::SIL | GPR::DH => 6,
            GPR::RDI | GPR::EDI | GPR::DI | GPR::DIL | GPR::BH => 7,
            GPR::R8 | GPR::R8D | GPR::R8W | GPR::R8B => 8,
            GPR::R9 | GPR::R9D | GPR::R9W | GPR::R9B => 9,
            GPR::R10 | GPR::R10D | GPR::R10W | GPR::R10B => 10,
            GPR::R11 | GPR::R11D | GPR::R11W | GPR::R11B => 11,
            GPR::R12 | GPR::R12D | GPR::R12W | GPR::R12B => 12,
            GPR::R13 | GPR::R13D | GPR::R13W | GPR::R13B => 13,
            GPR::R14 | GPR::R14D | GPR::R14W | GPR::R14B => 14,
            GPR::R15 | GPR::R15D | GPR::R15W | GPR::R15B => 15,
            GPR::R16 | GPR::R16D | GPR::R16W | GPR::R16B => 16,
            GPR::R17 | GPR::R17D | GPR::R17W | GPR::R17B => 17,
            GPR::R18 | GPR::R18D | GPR::R18W | GPR::R18B => 18,
            GPR::R19 | GPR::R19D | GPR::R19W | GPR::R19B => 19,
            GPR::R20 | GPR::R20D | GPR::R20W | GPR::R20B => 20,
            GPR::R21 | GPR::R21D | GPR::R21W | GPR::R21B => 21,
            GPR::R22 | GPR::R22D | GPR::R22W | GPR::R22B => 22,
            GPR::R23 | GPR::R23D | GPR::R23W | GPR::R23B => 23,
            GPR::R24 | GPR::R24D | GPR::R24W | GPR::R24B => 24,
            GPR::R25 | GPR::R25D | GPR::R25W | GPR::R25B => 25,
            GPR::R26 | GPR::R26D | GPR::R26W | GPR::R26B => 26,
            GPR::R27 | GPR::R27D | GPR::R27W | GPR::R27B => 27,
            GPR::R28 | GPR::R28D | GPR::R28W | GPR::R28B => 28,
            GPR::R29 | GPR::R29D | GPR::R29W | GPR::R29B => 29,
            GPR::R30 | GPR::R30D | GPR::R30W | GPR::R30B => 30,
            GPR::R31 | GPR::R31D | GPR::R31W | GPR::R31B => 31,
        }
    }

    /// The register of the given kind and index; some register where there
    /// is none.
    pub open spec fn of(kind: GPRKind, index: u8) -> GPR {
        match kind {
            GPRKind::Bit64 => match index {
                0 => GPR::RAX,
                1 => GPR::RCX,
                2 => GPR::RDX,
                3 => GPR::RBX,
                4 => GPR::RSP,
                5 => GPR::RBP,
                6 => GPR::RSI,
                7 => GPR::RDI,
                8 => GPR::R8,
                9 => GPR::R9,
                10 => GPR::R10,
                11 => GPR::R11,
                12 => GPR::R12,
                13 => GPR::R13,
                14 => GPR::R14,
                15 => GPR::R15,
                16 => GPR::R16,
                17 => GPR::R17,
                18 => GPR::R18,
                19 => GPR::R19,
                20 => GPR::R20,
                21 => GPR::R21,
                22 => GPR::R22,
                23 => GPR::R23,
                24 => GPR::R24,
                25 => GPR::R25,
                26 => GPR::R26,
                27 => GPR::R27,
                28 => GPR::R28,
                29 => GPR::R29,
                30 => GPR::R30,
                _ => GPR::R31,
            },
            GPRKind::Bit32 => match index {
                0 => GPR::EAX,
                1 => GPR::ECX,
                2 => GPR::EDX,
                3 => GPR::EBX,
                4 => GPR::ESP,
                5 => GPR::EBP,
                6 => GPR::ESI,
                7 => GPR::EDI,
                8 => GPR::R8D,
                9 => GPR::R9D,
                10 => GPR::R10D,
                11 => GPR::R11D,
                12 => GPR::R12D,
                13 => GPR::R13D,
                14 => GPR::R14D,
                15 => GPR::R15D,
                16 => GPR::R16D,
                17 => GPR::R17D,
                18 => GPR::R18D,
                19 => GPR::R19D,
                20 => GPR::R20D,
                21 => GPR::R21D,
                22 => GPR::R22D,
                23 => GPR::R23D,
                24 => GPR::R24D,
                25 => GPR::R25D,
                26 => GPR::R26D,
                27 => GPR::R27D,
                28 => GPR::R28D,
                29 => GPR::R29D,
                30 => GPR::R30D,
                _ => GPR::R31D,
            },
            GPRKind::Bit16 => match index {
                0 => GPR::AX,
                1 => GPR::CX,
                2 => GPR::DX,
                3 => GPR::BX,
                4 => GPR::SP,
                5 => GPR::BP,
                6 => GPR::SI,
                7 => GPR::DI,
                8 => GPR::R8W,
                9 => GPR::R9W,
                10 => GPR::R10W,
                11 => GPR::R11W,
                12 => GPR::R12W,
                13 => GPR::R13W,
                14 => GPR::R14W,
                15 => GPR::R15W,
                16 => GPR::R16W,
                17 => GPR::R17W,
                18 => GPR::R18W,
                19 => GPR::R19W,
                20 => GPR::R20W,
                21 => GPR::R21W,
                22 => GPR::R22W,
                23 => GPR::R23W,
                24 => GPR::R24W,
                25 => GPR::R25W,
                26 => GPR::R26W,
                27 => GPR::R27W,
                28 => GPR::R28W,
                29 => GPR::R29W,
                30 => GPR::R30W,
                _ => GPR::R31W,
            },
            GPRKind::Bit8 => match index {
                0 => GPR::AL,
                1 => GPR::CL,
                2 => GPR::DL,
                3 => GPR::BL,
                4 => GPR::SPL,
                5 => GPR::BPL,
                6 => GPR::SIL,
                7 => GPR::DIL,
                8 => GPR::R8B,
                9 => GPR::R9B,
                10 => GPR::R10B,
                11 => GPR::R11B,
                12 => GPR::R12B,
                13 => GPR::R13B,
                14 => GPR::R14B,
                15 => GPR::R15B,
                16 => GPR::R16B,
                17 => GPR::R17B,
                18 => GPR::R18B,
                19 => GPR::R19B,
                20 => GPR::R20B,
                21 => GPR::R21B,
                22 => GPR::R22B,
                23 => GPR::R23B,
                24 => GPR::R24B,
                25 => GPR::R25B,
                26 => GPR::R26B,
                27 => GPR::R27B,
                28 => GPR::R28B,
                29 => GPR::R29B,
                30 => GPR::R30B,
                _ => GPR::R31B,
            },
            GPRKind::Bit8High => match index {
                4 => GPR::AH,
                5 => GPR::CH,
                6 => GPR::DH,
                _ => GPR::BH,
            },
        }
    }

    /// The size of the register.
    pub open spec fn spec_size(self) -> Size {
        self.spec_kind().spec_size()
    }

    /// Whether the register is one of R8 to R15, in any width, or beyond.
    pub open spec fn spec_is_extended(self) -> bool {
        self.spec_index() > 7
    }

    /// Whether the register belongs to the Advanced Performance Extensions.
    pub open spec fn spec_is_apx(self) -> bool {
        self.spec_index() > 15
    }

    /// The three low bits of the index, which go into ModR/M, SIB or the
    /// opcode.
    pub open spec fn spec_lower_3_bits_index(self) -> u8 {
        (self.spec_index() % 8) as u8
    }

    /// Whether the index is that of AH, CH, DH or BH, which SPL, BPL, SIL and
    /// DIL share.
    pub open spec fn spec_index_matches_bit8_high(self) -> bool {
        4 <= self.spec_index() <= 7
    }

    /// Whether the register is one of SPL, BPL, SIL and DIL, which only a
    /// REX prefix tells from AH, CH, DH and BH.
    pub open spec fn needs_rex(self) -> bool {
        self.spec_index_matches_bit8_high() && self.spec_kind() == GPRKind::Bit8
    }

    /// The register of the given kind and index.
    pub fn new_unchecked(kind: GPRKind, index: u8) -> (gpr: Self)
        requires
            gpr_is_valid(kind, index),
        ensures
            gpr == GPR::of(kind, index),
            gpr.spec_kind() == kind,
            gpr.spec_index() == index,
    {
        match kind {
            GPRKind::Bit64 => match index {
                0 => GPR::RAX,
                1 => GPR::RCX,
                2 => GPR::RDX,
                3 => GPR::RBX,
                4 => GPR::RSP,
                5 => GPR::RBP,
                6 => GPR::RSI,
                7 => GPR::RDI,
                8 => GPR::R8,
                9 => GPR::R9,
                10 => GPR::R10,
                11 => GPR::R11,
                12 => GPR::R12,
                13 => GPR::R13,
                14 => GPR::R14,
                15 => GPR::R15,
                16 => GPR::R16,
                17 => GPR::R17,
                18 => GPR::R18,
                19 => GPR::R19,
                20 => GPR::R20,
                21 => GPR::R21,
                22 => GPR::R22,
                23 => GPR::R23,
                24 => GPR::R24,
                25 => GPR::R25,
                26 => GPR::R26,
                27 => GPR::R27,
                28 => GPR::R28,
                29 => GPR::R29,
                30 => GPR::R30,
                _ => GPR::R31,
            },
            GPRKind::Bit32 => match index {
                0 => GPR::EAX,
                1 => GPR::ECX,
                2 => GPR::EDX,
                3 => GPR::EBX,
                4 => GPR::ESP,
                5 => GPR::EBP,
                6 => GPR::ESI,
                7 => GPR::EDI,
                8 => GPR::R8D,
                9 => GPR::R9D,
                10 => GPR::R10D,
                11 => GPR::R11D,
                12 => GPR::R12D,
                13 => GPR::R13D,
                14 => GPR::R14D,
                15 => GPR::R15D,
                16 => GPR::R16D,
                17 => GPR::R17D,
                18 => GPR::R18D,
                19 => GPR::R19D,
                20 => GPR::R20D,
                21 => GPR::R21D,
                22 => GPR::R22D,
                23 => GPR::R23D,
                24 => GPR::R24D,
                25 => GPR::R25D,
                26 => GPR::R26D,
                27 => GPR::R27D,
                28 => GPR::R28D,
                29 => GPR::R29D,
                30 => GPR::R30D,
                _ => GPR::R31D,
            },
            GPRKind::Bit16 => match index {
                0 => GPR::AX,
                1 => GPR::CX,
                2 => GPR::DX,
                3 => GPR::BX,
                4 => GPR::SP,
                5 => GPR::BP,
                6 => GPR::SI,
                7 => GPR::DI,
                8 => GPR::R8W,
                9 => GPR::R9W,
                10 => GPR::R10W,
                11 => GPR::R11W,
                12 => GPR::R12W,
                13 => GPR::R13W,
                14 => GPR::R14W,
                15 => GPR::R15W,
                16 => GPR::R16W,
                17 => GPR::R17W,
                18 => GPR::R18W,
                19 => GPR::R19W,
                20 => GPR::R20W,
                21 => GPR::R21W,
                22 => GPR::R22W,
                23 => GPR::R23W,
                24 => GPR::R24W,
                25 => GPR::R25W,
                26 => GPR::R26W,
                27 => GPR::R27W,
                28 => GPR::R28W,
                29 => GPR::R29W,
                30 => GPR::R30W,
                _ => GPR::R31W,
            },
            GPRKind::Bit8 => match index {
                0 => GPR::AL,
                1 => GPR::CL,
                2 => GPR::DL,
                3 => GPR::BL,
                4 => GPR::SPL,
                5 => GPR::BPL,
                6 => GPR::SIL,
                7 => GPR::DIL,
                8 => GPR::R8B,
                9 => GPR::R9B,
                10 => GPR::R10B,
                11 => GPR::R11B,
                12 => GPR::R12B,
                13 => GPR::R13B,
                14 => GPR::R14B,
                15 => GPR::R15B,
                16 => GPR::R16B,
                17 => GPR::R17B,
                18 => GPR::R18B,
                19 => GPR::R19B,
                20 => GPR::R20B,
                21 => GPR::R21B,
                22 => GPR::R22B,
                23 => GPR::R23B,
                24 => GPR::R24B,
                25 => GPR::R25B,
                26 => GPR::R26B,
                27 => GPR::R27B,
                28 => GPR::R28B,
                29 => GPR::R29B,
                30 => GPR::R30B,
                _ => GPR::R31B,
            },
            GPRKind::Bit8High => match index {
                4 => GPR::AH,
                5 => GPR::CH,
                6 => GPR::DH,
                _ => GPR::BH,
            },
        }
    }

    /// The register of the given kind and index, if there is one.
    pub fn new(kind: GPRKind, index: u8) -> (result: Result<Self, NewGPRError>)
        ensures
            result is Ok <==> gpr_is_valid(kind, index),
            result matches Ok(gpr) ==> gpr.spec_kind() == kind && gpr.spec_index() == index,
            result matches Err(error) ==> error == (if kind == GPRKind::Bit8High && !(4 <= index
                <= 7) {
                NewGPRError::InvalidBit8HighIndex
            } else {
                NewGPRError::IndexOutOfRange
            }),
    {
        if kind.equals(GPRKind::Bit8High) && (index < 4 || index > 7) {
            return Err(NewGPRError::InvalidBit8HighIndex);
        }
        if index >= 32 {
            return Err(NewGPRError::IndexOutOfRange);
        }
        Ok(Self::new_unchecked(kind, index))
    }

    /// The kind of the register.
    #[verifier::when_used_as_spec(spec_kind)]
    pub fn kind(self) -> (kind: GPRKind)
        ensures
            kind == self.spec_kind(),
    {
        match self {
            GPR::RAX | GPR::RCX | GPR::RDX | GPR::RBX | GPR::RSP | GPR::RBP | GPR::RSI
            | GPR::RDI | GPR::R8 | GPR::R9 | GPR::R10 | GPR::R11 | GPR::R12 | GPR::R13
            | GPR::R14 | GPR::R15 | GPR::R16 | GPR::R17 | GPR::R18 | GPR::R19 | GPR::R20
            | GPR::R21 | GPR::R22 | GPR::R23 | GPR::R24 | GPR::R25 | GPR::R26 | GPR::R27
            | GPR::R28 | GPR::R29 | GPR::R30 | GPR::R31 => GPRKind::Bit64,
            GPR::EAX | GPR::ECX | GPR::EDX | GPR::EBX | GPR::ESP | GPR::EBP | GPR::ESI
            | GPR::EDI | GPR::R8D | GPR::R9D | GPR::R10D | GPR::R11D | GPR::R12D | GPR::R13D
            | GPR::R14D | GPR::R15D | GPR::R16D | GPR::R17D | GPR::R18D | GPR::R19D | GPR::R20D
            | GPR::R21D | GPR::R22D | GPR::R23D | GPR::R24D | GPR::R25D | GPR::R26D | GPR::R27D
            | GPR::R28D | GPR::R29D | GPR::R30D | GPR::R31D => GPRKind::Bit32,
            GPR::AX | GPR::CX | GPR::DX | GPR::BX | GPR::SP | GPR::BP | GPR::SI | GPR::DI
            | GPR::R8W | GPR::R9W | GPR::R10W | GPR::R11W | GPR::R12W | GPR::R13W | GPR::R14W
            | GPR::R15W | GPR::R16W | GPR::R17W | GPR::R18W | GPR::R19W | GPR::R20W | GPR::R21W
            | GPR::R22W | GPR::R23W | GPR::R24W | GPR::R25W | GPR::R26W | GPR::R27W | GPR::R28W
            | GPR::R29W | GPR::R30W | GPR::R31W => GPRKind::Bit16,
            GPR::AL | GPR::CL | GPR::DL | GPR::BL | GPR::SPL | GPR::BPL | GPR::SIL | GPR::DIL
            | GPR::R8B | GPR::R9B | GPR::R10B | GPR::R11B | GPR::R12B | GPR::R13B | GPR::R14B
            | GPR::R15B | GPR::R16B | GPR::R17B | GPR::R18B | GPR::R19B | GPR::R20B | GPR::R21B
            | GPR::R22B | GPR::R23B | GPR::R24B | GPR::R25B | GPR::R26B | GPR::R27B | GPR::R28B
            | GPR::R29B | GPR::R30B | GPR::R31B => GPRKind::Bit8,
            GPR::AH | GPR::CH | GPR::DH | GPR::BH => GPRKind::Bit8High,
        }
    }

    /// The size of the register.
    #[verifier::when_used_as_spec(spec_size)]
    pub fn size(self) -> (size: Size)
        ensures
            size == self.spec_size(),
    {
        self.kind().size()
    }

    /// The index of the register.
    #[verifier::when_used_as_spec(spec_index)]
    #[must_use]
    pub fn index(self) -> (index: u8)
        ensures
            index == self.spec_index(),
            index < 32,
    {
        match self {
            GPR::RAX | GPR::EAX | GPR::AX | GPR::AL => 0,
            GPR::RCX | GPR::ECX | GPR::CX | GPR::CL => 1,
            GPR::RDX | GPR::EDX | GPR::DX | GPR::DL => 2,
            GPR::RBX | GPR::EBX | GPR::BX | GPR::BL => 3,
            GPR::RSP | GPR::ESP | GPR::SP | GPR::SPL | GPR::AH => 4,
            GPR::RBP | GPR::EBP | GPR::BP | GPR::BPL | GPR::CH => 5,
            GPR::RSI | GPR::ESI | GPR::SI | GPR::SIL | GPR::DH => 6,
            GPR::RDI | GPR::EDI | GPR::DI | GPR::DIL | GPR::BH => 7,
            GPR::R8 | GPR::R8D | GPR::R8W | GPR::R8B => 8,
            GPR::R9 | GPR::R9D | GPR::R9W | GPR::R9B => 9,
            GPR::R10 | GPR::R10D | GPR::R10W | GPR::R10B => 10,
            GPR::R11 | GPR::R11D | GPR::R11W | GPR::R11B => 11,
            GPR::R12 | GPR::R12D | GPR::R12W | GPR::R12B => 12,
            GPR::R13 | GPR::R13D | GPR::R13W | GPR::R13B => 13,
            GPR::R14 | GPR::R14D | GPR::R14W | GPR::R14B => 14,
            GPR::R15 | GPR::R15D | GPR::R15W | GPR::R15B => 15,
            GPR::R16 | GPR::R16D | GPR::R16W | GPR::R16B => 16,
            GPR::R17 | GPR::R17D | GPR::R17W | GPR::R17B => 17,
            GPR::R18 | GPR::R18D | GPR::R18W | GPR::R18B => 18,
            GPR::R19 | GPR::R19D | GPR::R19W | GPR::R19B => 19,
            GPR::R20 | GPR::R20D | GPR::R20W | GPR::R20B => 20,
            GPR::R21 | GPR::R21D | GPR::R21W | GPR::R21B => 21,
            GPR::R22 | GPR::R22D | GPR::R22W | GPR::R22B => 22,
            GPR::R23 | GPR::R23D | GPR::R23W | GPR::R23B => 23,
            GPR::R24 | GPR::R24D | GPR::R24W | GPR::R24B => 24,
            GPR::R25 | GPR::R25D | GPR::R25W | GPR::R25B => 25,
            GPR::R26 | GPR::R26D | GPR::R26W | GPR::R26B => 26,
            GPR::R27 | GPR::R27D | GPR::R27W | GPR::R27B => 27,
            GPR::R28 | GPR::R28D | GPR::R28W | GPR::R28B => 28,
            GPR::R29 | GPR::R29D | GPR::R29W | GPR::R29B => 29,
            GPR::R30 | GPR::R30D | GPR::R30W | GPR::R30B => 30,
            GPR::R31 | GPR::R31D | GPR::R31W | GPR::R31B => 31,
        }
    }

    /// Whether the register is one of R8 to R15, in any width, or beyond.
    #[verifier::when_used_as_spec(spec_is_extended)]
    #[must_use]
    pub fn is_extended(self) -> (extended: bool)
        ensures
            extended == self.spec_is_extended(),
    {
        self.index() > 0b111
    }

    /// Whether the register belongs to the Advanced Performance Extensions.
    #[verifier::when_used_as_spec(spec_is_apx)]
    #[must_use]
    pub fn is_apx(self) -> (apx: bool)
        ensures
            apx == self.spec_is_apx(),
    {
        self.index() > 0b1111
    }

    /// The three low bits of the index.
    #[verifier::when_used_as_spec(spec_lower_3_bits_index)]
    #[must_use]
    pub fn lower_3_bits_index(self) -> (low: u8)
        ensures
            low == self.spec_lower_3_bits_index(),
            low < 8,
    {
        self.index() % 8
    }

    /// Whether the index is that of AH, CH, DH or BH, which SPL, BPL, SIL and
    /// DIL share.
    #[verifier::when_used_as_spec(spec_index_matches_bit8_high)]
    #[must_use]
    pub fn index_matches_bit8_high(self) -> (matches: bool)
        ensures
            matches == self.spec_index_matches_bit8_high(),
    {
        let idx = self.index();
        idx >= 4 && idx <= 7
    }

    /// The same as the `==` operator: the same kind and the same index.
    #[must_use]
    pub fn equals(&self, other: &Self) -> (same: bool)
        ensures
            same <==> *self == *other,
            same <==> self.spec_kind() == other.spec_kind() && self.spec_index()
                == other.spec_index(),
    {
        proof {
            lemma_gpr_by_kind_and_index(*self);
            lemma_gpr_by_kind_and_index(*other);
        }
        self.kind().equals(other.kind()) && self.index() == other.index()
    }
}

/// Every register has a kind and an index that name a register, and is the
/// one that they name.
pub proof fn lemma_gpr_by_kind_and_index(gpr: GPR)
    ensures
        gpr_is_valid(gpr.spec_kind(), gpr.spec_index()),
        GPR::of(gpr.spec_kind(), gpr.spec_index()) == gpr,
{
}

/// A kind and an index that name a register are those of the register that
/// they name.
pub proof fn lemma_gpr_of(kind: GPRKind, index: u8)
    requires
        gpr_is_valid(kind, index),
    ensures
        GPR::of(kind, index).spec_kind() == kind,
        GPR::of(kind, index).spec_index() == index,
{
}

} // verus!
