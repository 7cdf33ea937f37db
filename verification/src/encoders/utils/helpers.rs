//! What the encoding rules share: the prefixes, the bytes ModR/M, SIB and REX,
//! the parts of an instruction, and the encoding of a memory operand.
use vstd::prelude::*;

use crate::fixed_buffer::FixedBuffer;
use crate::models::{little_endian, GPRKind, Memory, Offset, Scale, GPR};

verus! {

/// The prefix that selects 16-bit operands.
pub const OPERAND_SIZE_OVERRIDE_PREFIX: u8 = 0x66;

/// The REX prefix with none of its bits set.
pub const REX: u8 = 0x40;

/// The REX prefix with W set: 64-bit operands.
pub const REX_W: u8 = 0x48;

/// The REX prefix with R set: an extended register in the `reg` field.
pub const REX_R: u8 = 0x44;

/// The REX prefix with X set: an extended index register.
pub const REX_X: u8 = 0x42;

/// The REX prefix with B set: an extended register in the `rm` field, the
/// base field or the opcode.
pub const REX_B: u8 = 0x41;

/// No opcode is longer than this; with an opcode this long every encoding
/// still fits in 15 bytes.
pub const MAX_OPCODE_SIZE: usize = 4;

/// The ModR/M byte with the given fields.
pub open spec fn spec_mod_rm(mod_field: u8, reg_field: u8, rm_field: u8) -> u8 {
    (mod_field << 6) | (reg_field << 3) | rm_field
}

/// The SIB byte with the given fields.
pub open spec fn spec_sib(scale: u8, index: u8, base: u8) -> u8 {
    (scale << 6) | (index << 3) | base
}

/// The REX prefix with the given bits.
pub open spec fn spec_rex(w: u8, r: u8, x: u8, b: u8) -> u8 {
    0b0100_0000 | (w << 3) | (r << 2) | (x << 1) | b
}

/// Whether `byte` is a REX prefix.
pub open spec fn is_rex(byte: u8) -> bool {
    0x40 <= byte <= 0x4F
}

/// One for a set bit, zero for a clear one.
pub open spec fn spec_bit(flag: bool) -> u8 {
    if flag {
        1
    } else {
        0
    }
}

/// The REX prefix that an instruction needs: one with the given bits where
/// any of them is set or where `bare` asks for a prefix anyway, none
/// otherwise.
pub open spec fn spec_rex_prefix(w: bool, r: bool, x: bool, b: bool, bare: bool) -> Option<u8> {
    if w || r || x || b || bare {
        Some(spec_rex(spec_bit(w), spec_bit(r), spec_bit(x), spec_bit(b)))
    } else {
        None
    }
}

/// The ModR/M byte with the given fields.
#[verifier::when_used_as_spec(spec_mod_rm)]
pub fn mod_rm(mod_field: u8, reg_field: u8, rm_field: u8) -> (byte: u8)
    requires
        mod_field < 4,
        reg_field < 8,
        rm_field < 8,
    ensures
        byte == spec_mod_rm(mod_field, reg_field, rm_field),
{
    (mod_field << 6) | (reg_field << 3) | rm_field
}

/// The SIB byte with the given fields.
#[verifier::when_used_as_spec(spec_sib)]
pub fn sib(scale: u8, index: u8, base: u8) -> (byte: u8)
    requires
        scale < 4,
        index < 8,
        base < 8,
    ensures
        byte == spec_sib(scale, index, base),
{
    (scale << 6) | (index << 3) | base
}

/// The REX prefix with the given bits.
#[verifier::when_used_as_spec(spec_rex)]
pub fn rex(w: u8, r: u8, x: u8, b: u8) -> (byte: u8)
    requires
        w < 2,
        r < 2,
        x < 2,
        b < 2,
    ensures
        byte == spec_rex(w, r, x, b),
        is_rex(byte),
{
    let byte = 0b0100_0000 | (w << 3) | (r << 2) | (x << 1) | b;
    assert(0x40 <= byte <= 0x4F) by (bit_vector)
        requires
            w < 2,
            r < 2,
            x < 2,
            b < 2,
            byte == 0b0100_0000u8 | (w << 3) | (r << 2) | (x << 1) | b,
    ;
    byte
}

/// The REX prefix that an instruction needs, if it needs one.
pub fn rex_prefix(w: bool, r: bool, x: bool, b: bool, bare: bool) -> (prefix: Option<u8>)
    ensures
        prefix == spec_rex_prefix(w, r, x, b, bare),
        prefix matches Some(byte) ==> is_rex(byte),
{
    if w || r || x || b || bare {
        Some(rex(if w { 1 } else { 0 }, if r { 1 } else { 0 }, if x { 1 } else { 0 }, if b { 1 } else { 0 }))
    } else {
        None
    }
}

/// The named prefixes are what the formula gives.
pub proof fn lemma_rex_constants()
    ensures
        spec_rex(0, 0, 0, 0) == REX,
        spec_rex(1, 0, 0, 0) == REX_W,
        spec_rex(0, 1, 0, 0) == REX_R,
        spec_rex(0, 0, 1, 0) == REX_X,
        spec_rex(0, 0, 0, 1) == REX_B,
{
    assert(0b0100_0000u8 | (0u8 << 3) | (0u8 << 2) | (0u8 << 1) | 0u8 == 0x40
        && 0b0100_0000u8 | (1u8 << 3) | (0u8 << 2) | (0u8 << 1) | 0u8 == 0x48
        && 0b0100_0000u8 | (0u8 << 3) | (1u8 << 2) | (0u8 << 1) | 0u8 == 0x44
        && 0b0100_0000u8 | (0u8 << 3) | (0u8 << 2) | (1u8 << 1) | 0u8 == 0x42
        && 0b0100_0000u8 | (0u8 << 3) | (0u8 << 2) | (0u8 << 1) | 1u8 == 0x41) by (bit_vector);
}

/// Whatever its bits, a REX prefix lies between 0x40 and 0x4F.
pub proof fn lemma_rex_prefix_is_rex(w: bool, r: bool, x: bool, b: bool, bare: bool)
    ensures
        spec_rex_prefix(w, r, x, b, bare) matches Some(byte) ==> is_rex(byte),
{
    let (wb, rb, xb, bb) = (spec_bit(w), spec_bit(r), spec_bit(x), spec_bit(b));
    let byte = spec_rex(wb, rb, xb, bb);
    assert(0x40 <= byte <= 0x4F) by (bit_vector)
        requires
            wb < 2,
            rb < 2,
            xb < 2,
            bb < 2,
            byte == 0b0100_0000u8 | (wb << 3) | (rb << 2) | (xb << 1) | bb,
    ;
}

/// The parts of one encoded instruction, in the order in which they stand.
pub struct InstructionParts {
    /// Whether the operand-size override prefix stands first.
    pub operand_size_override: bool,
    /// The REX prefix, where there is one.
    pub rex: Option<u8>,
    /// The opcode.
    pub opcode: Seq<u8>,
    /// ModR/M, SIB and displacement.
    pub operand: Seq<u8>,
    /// The immediate.
    pub immediate: Seq<u8>,
}

impl InstructionParts {
    /// The prefixes: the operand-size override, then REX.
    pub open spec fn prefixes(self) -> Seq<u8> {
        let legacy = if self.operand_size_override {
            seq![OPERAND_SIZE_OVERRIDE_PREFIX]
        } else {
            Seq::<u8>::empty()
        };
        match self.rex {
            Some(rex) => legacy.push(rex),
            None => legacy,
        }
    }

    /// The bytes of the instruction.
    pub open spec fn bytes(self) -> Seq<u8> {
        self.prefixes() + self.opcode + self.operand + self.immediate
    }
}

/// Whether the prefixes of an instruction stand before its opcode as they
/// have to: at most two of them, each the operand-size override or a REX
/// prefix; the operand-size override first; REX last, directly before the
/// opcode.
pub open spec fn prefixes_come_first(parts: InstructionParts) -> bool {
    let bytes = parts.bytes();
    let count = parts.prefixes().len() as int;
    &&& count <= 2
    &&& bytes.subrange(0, count) == parts.prefixes()
    &&& bytes.subrange(count, count + parts.opcode.len()) == parts.opcode
    &&& forall|i: int|
        0 <= i < count ==> bytes[i] == OPERAND_SIZE_OVERRIDE_PREFIX || is_rex(#[trigger] bytes[i])
    &&& parts.operand_size_override ==> bytes[0] == OPERAND_SIZE_OVERRIDE_PREFIX
    &&& parts.rex matches Some(rex) ==> bytes[count - 1] == rex
    &&& forall|i: int| 0 <= i < count && is_rex(#[trigger] bytes[i]) ==> i == count - 1
}

/// The prefixes of an instruction stand before its opcode, whatever the
/// parts of the instruction are, if only its REX prefix is one.
pub proof fn lemma_prefixes_come_first(parts: InstructionParts)
    requires
        parts.rex matches Some(rex) ==> is_rex(rex),
    ensures
        prefixes_come_first(parts),
{
    let bytes = parts.bytes();
    let prefixes = parts.prefixes();
    assert(bytes.subrange(0, prefixes.len() as int) =~= prefixes);
    assert(bytes.subrange(prefixes.len() as int, (prefixes.len() + parts.opcode.len()) as int)
        =~= parts.opcode);
}

/// Holds ModR/M, SIB and displacement of a memory operand.
pub type MemoryBuffer = FixedBuffer<7>;

/// Whether a base register can only be named in a SIB byte: RSP and R12.
pub open spec fn base_needs_sib(base: GPR) -> bool {
    base.spec_index() == 4 || base.spec_index() == 12
}

/// Whether a base register cannot stand without a displacement: RBP and
/// R13, whose place with `mod == 0b00` belongs to RIP-relative addressing.
pub open spec fn base_needs_displacement(base: GPR) -> bool {
    base.spec_index() == 5 || base.spec_index() == 13
}

/// The `mod` field that announces the displacement.
pub open spec fn offset_mod(offset: Offset) -> u8 {
    match offset {
        Offset::NoOffset => 0b00,
        Offset::Bit8(_) => 0b01,
        Offset::Bit32(_) => 0b10,
    }
}

/// The bytes of the displacement, as wide as it was given.
pub open spec fn displacement_bytes(offset: Offset) -> Seq<u8> {
    match offset {
        Offset::NoOffset => Seq::empty(),
        Offset::Bit8(imm8) => imm8.bytes(),
        Offset::Bit32(imm32) => imm32.bytes(),
    }
}

/// ModR/M, SIB and displacement of `[base + offset]`.
pub open spec fn based_operand(reg_field: u8, base: GPR, offset: Offset) -> Seq<u8> {
    if offset is NoOffset && base_needs_displacement(base) {
        seq![spec_mod_rm(0b01, reg_field, 0b101), 0u8]
    } else if base_needs_sib(base) {
        seq![spec_mod_rm(offset_mod(offset), reg_field, 0b100), spec_sib(0b00, 0b100, 0b100)]
            + displacement_bytes(offset)
    } else {
        seq![spec_mod_rm(offset_mod(offset), reg_field, base.spec_lower_3_bits_index())]
            + displacement_bytes(offset)
    }
}

/// ModR/M, SIB and displacement of `[index * scale + offset]`. Without a
/// base the displacement always takes four bytes.
pub open spec fn scaled_operand(reg_field: u8, index: GPR, scale: Scale, offset: Offset) -> Seq<
    u8,
> {
    seq![
        spec_mod_rm(0b00, reg_field, 0b100),
        spec_sib(scale.spec_index(), index.spec_lower_3_bits_index(), 0b101),
    ] + little_endian(offset.displacement(), 4)
}

/// ModR/M, SIB and displacement of `[base + index * scale + offset]`.
pub open spec fn based_scaled_operand(
    reg_field: u8,
    base: GPR,
    index: GPR,
    scale: Scale,
    offset: Offset,
) -> Seq<u8> {
    let sib_byte = spec_sib(
        scale.spec_index(),
        index.spec_lower_3_bits_index(),
        base.spec_lower_3_bits_index(),
    );
    if offset is NoOffset && base_needs_displacement(base) {
        seq![spec_mod_rm(0b01, reg_field, 0b100), sib_byte, 0u8]
    } else {
        seq![spec_mod_rm(offset_mod(offset), reg_field, 0b100), sib_byte] + displacement_bytes(
            offset,
        )
    }
}

/// ModR/M and displacement of `[RIP + offset]`. The displacement always
/// takes four bytes.
pub open spec fn rip_relative_operand(reg_field: u8, offset: Offset) -> Seq<u8> {
    seq![spec_mod_rm(0b00, reg_field, 0b101)] + little_endian(offset.displacement(), 4)
}

/// ModR/M, SIB and displacement of a memory operand: what follows the
/// opcode, up to the immediate.
pub open spec fn memory_operand(reg_field: u8, memory: Memory) -> Seq<u8> {
    match memory {
        Memory::Based { base, offset } => based_operand(reg_field, base, offset),
        Memory::Scaled { index, scale, offset } => scaled_operand(reg_field, index, scale, offset),
        Memory::BasedScaled { base, index, scale, offset } => based_scaled_operand(
            reg_field,
            base,
            index,
            scale,
            offset,
        ),
        Memory::RelativeToRIP { offset } => rip_relative_operand(reg_field, offset),
    }
}

/// A memory operand takes at least one byte and at most six.
pub proof fn lemma_memory_operand_len(reg_field: u8, memory: Memory)
    ensures
        1 <= memory_operand(reg_field, memory).len() <= 6,
{
    let offset = match memory {
        Memory::Based { offset, .. } => offset,
        Memory::Scaled { offset, .. } => offset,
        Memory::BasedScaled { offset, .. } => offset,
        Memory::RelativeToRIP { offset } => offset,
    };
    crate::models::lemma_little_endian_len(offset.displacement(), 4);
    match offset {
        Offset::NoOffset => {},
        Offset::Bit8(imm8) => imm8.lemma_bytes_are_twos_complement(),
        Offset::Bit32(imm32) => imm32.lemma_bytes_are_twos_complement(),
    }
}

/// Whether every register of a memory operand is 64 bits wide, as a valid
/// operand needs it.
pub open spec fn spec_memory_contains_bit64_registers(memory: &Memory) -> bool {
    match *memory {
        Memory::Based { base, .. } => base.spec_kind() == GPRKind::Bit64,
        Memory::Scaled { index, .. } => index.spec_kind() == GPRKind::Bit64,
        Memory::BasedScaled { base, index, .. } => base.spec_kind() == GPRKind::Bit64
            && index.spec_kind() == GPRKind::Bit64,
        Memory::RelativeToRIP { .. } => true,
    }
}

/// Whether every register of a memory operand is 64 bits wide.
#[verifier::when_used_as_spec(spec_memory_contains_bit64_registers)]
#[must_use]
pub fn memory_contains_bit64_registers(memory: &Memory) -> (all: bool)
    ensures
        all == spec_memory_contains_bit64_registers(memory),
        memory.is_valid() ==> all,
{
    match memory {
        Memory::Based { base, .. } => base.kind().equals(GPRKind::Bit64),
        Memory::Scaled { index, .. } => index.kind().equals(GPRKind::Bit64),
        Memory::BasedScaled { base, index, .. } => base.kind().equals(GPRKind::Bit64)
            && index.kind().equals(GPRKind::Bit64),
        Memory::RelativeToRIP { .. } => true,
    }
}

/// Encodes a memory operand: the ModR/M byte with the given `reg` field,
/// then SIB and displacement as far as the operand needs them.
pub fn encode_memory(reg_field: u8, memory: &Memory) -> (buffer: MemoryBuffer)
    requires
        reg_field < 8,
        memory.is_valid(),
    ensures
        buffer@ == memory_operand(reg_field, *memory),
        1 <= buffer@.len() <= 6,
{
    proof {
        lemma_memory_operand_len(reg_field, *memory);
    }
    match memory {
        Memory::Based { base, offset } => encode_based_memory(reg_field, *base, *offset),
        Memory::Scaled { index, scale, offset } => encode_scaled_memory(
            reg_field,
            *index,
            *scale,
            *offset,
        ),
        Memory::BasedScaled { base, index, scale, offset } => encode_based_scaled_memory(
            reg_field,
            *base,
            *index,
            *scale,
            *offset,
        ),
        Memory::RelativeToRIP { offset } => {
            let mut buffer = MemoryBuffer::new();
            buffer.push_array([mod_rm(0b00, reg_field, 0b101)]);
            // RIP-relative addressing always takes a 32-bit displacement.
            let offset = offset.as_sign_extended_imm32();
            proof {
                offset.lemma_bytes_are_twos_complement();
            }
            buffer.push_array(offset.encode());
            buffer
        },
    }
}

fn encode_based_memory(reg_field: u8, base: GPR, offset: Offset) -> (buffer: MemoryBuffer)
    requires
        reg_field < 8,
        crate::models::is_valid_base(base),
    ensures
        buffer@ == based_operand(reg_field, base, offset),
{
    let mut buffer = MemoryBuffer::new();
    let through_sib = base.equals(&GPR::RSP) || base.equals(&GPR::R12);
    match offset {
        Offset::NoOffset => {
            if through_sib {
                // RSP and R12 can only be named in a SIB byte: one without
                // an index, whose scale is ignored.
                buffer.push_array([mod_rm(0b00, reg_field, 0b100), sib(0b00, 0b100, 0b100)]);
            } else if base.equals(&GPR::RBP) || base.equals(&GPR::R13) {
                // With `mod == 0b00` the place of RBP and R13 belongs to
                // RIP-relative addressing. So they take `mod == 0b01`,
                // `[r/m + disp8]`, with a displacement of zero.
                buffer.push_array([mod_rm(0b01, reg_field, 0b101), 0]);
            } else {
                buffer.push_array([mod_rm(0b00, reg_field, base.lower_3_bits_index())]);
            }
        },
        Offset::Bit8(imm8) => {
            if through_sib {
                buffer.push_array([mod_rm(0b01, reg_field, 0b100), sib(0b00, 0b100, 0b100)]);
            } else {
                buffer.push_array([mod_rm(0b01, reg_field, base.lower_3_bits_index())]);
            }
            proof {
                imm8.lemma_bytes_are_twos_complement();
            }
            buffer.push_array(imm8.encode());
        },
        Offset::Bit32(imm32) => {
            if through_sib {
                buffer.push_array([mod_rm(0b10, reg_field, 0b100), sib(0b00, 0b100, 0b100)]);
            } else {
                buffer.push_array([mod_rm(0b10, reg_field, base.lower_3_bits_index())]);
            }
            proof {
                imm32.lemma_bytes_are_twos_complement();
            }
            buffer.push_array(imm32.encode());
        },
    }
    assert(buffer@ =~= based_operand(reg_field, base, offset));
    buffer
}

fn encode_scaled_memory(reg_field: u8, index: GPR, scale: Scale, offset: Offset) -> (buffer:
    MemoryBuffer)
    requires
        reg_field < 8,
        crate::models::is_valid_index(index),
    ensures
        buffer@ == scaled_operand(reg_field, index, scale, offset),
{
    let mut buffer = MemoryBuffer::new();
    // An index without a base takes `mod == 0b00` and the SIB base `0b101`,
    // and with them a 32-bit displacement.
    buffer.push_array(
        [mod_rm(0b00, reg_field, 0b100), sib(scale.index(), index.lower_3_bits_index(), 0b101)],
    );
    let offset = offset.as_sign_extended_imm32();
    proof {
        offset.lemma_bytes_are_twos_complement();
    }
    buffer.push_array(offset.encode());
    buffer
}

fn encode_based_scaled_memory(
    reg_field: u8,
    base: GPR,
    index: GPR,
    scale: Scale,
    offset: Offset,
) -> (buffer: MemoryBuffer)
    requires
        reg_field < 8,
        crate::models::is_valid_base(base),
        crate::models::is_valid_index(index),
    ensures
        buffer@ == based_scaled_operand(reg_field, base, index, scale, offset),
{
    let mut buffer = MemoryBuffer::new();
    let sib_byte = sib(scale.index(), index.lower_3_bits_index(), base.lower_3_bits_index());
    match offset {
        Offset::NoOffset => {
            if base.equals(&GPR::RBP) || base.equals(&GPR::R13) {
                // RBP and R13 cannot stand without a displacement: they
                // take `mod == 0b01` and a displacement of zero.
                buffer.push_array([mod_rm(0b01, reg_field, 0b100), sib_byte, 0]);
            } else {
                buffer.push_array([mod_rm(0b00, reg_field, 0b100), sib_byte]);
            }
        },
        Offset::Bit8(imm8) => {
            buffer.push_array([mod_rm(0b01, reg_field, 0b100), sib_byte]);
            proof {
                imm8.lemma_bytes_are_twos_complement();
            }
            buffer.push_array(imm8.encode());
        },
        Offset::Bit32(imm32) => {
            buffer.push_array([mod_rm(0b10, reg_field, 0b100), sib_byte]);
            proof {
                imm32.lemma_bytes_are_twos_complement();
            }
            buffer.push_array(imm32.encode());
        },
    }
    assert(buffer@ =~= based_scaled_operand(reg_field, base, index, scale, offset));
    buffer
}

} // verus!
