//! The encoded instruction.
use vstd::prelude::*;

use crate::fixed_buffer::FixedBuffer;

verus! {

/// The bytes of one encoded x86-64 instruction: at most 15 of them.
#[derive(Debug, Clone, Copy, PartialEq, Eq, Hash)]
#[must_use]
pub struct EncodedX86_64Instruction {
    value: FixedBuffer<15>,
}

impl View for EncodedX86_64Instruction {
    type V = Seq<u8>;

    /// The bytes of the instruction.
    closed spec fn view(&self) -> Seq<u8> {
        self.value@
    }
}

impl EncodedX86_64Instruction {
    /// No x86-64 instruction is longer.
    pub const MAX_SIZE: usize = 15;

    /// An instruction without bytes, for an encoder to fill.
    pub(crate) fn new() -> (instr: Self)
        ensures
            instr@ == Seq::<u8>::empty(),
    {
        Self { value: FixedBuffer::new() }
    }

    /// The instruction whose bytes are those of `array`.
    pub(crate) fn from_array<const N: usize>(array: [u8; N]) -> (instr: Self)
        requires
            N <= 15,
        ensures
            instr@ == array@,
    {
        Self { value: FixedBuffer::from_array(array) }
    }

    /// Appends the bytes of `array`.
    pub(crate) fn push_array<const N: usize>(&mut self, array: [u8; N])
        requires
            old(self)@.len() + N <= 15,
        ensures
            final(self)@ == old(self)@ + array@,
    {
        self.value.push_array(array);
    }

    /// Appends the bytes of `slice`.
    pub(crate) fn push_slice(&mut self, slice: &[u8])
        requires
            old(self)@.len() + slice@.len() <= 15,
        ensures
            final(self)@ == old(self)@ + slice@,
    {
        self.value.push_slice(slice);
    }

    /// The bytes of the instruction.
    #[must_use]
    pub fn as_slice(&self) -> (slice: &[u8])
        ensures
            slice@ == self@,
            slice@.len() <= 15,
    {
        self.value.as_slice()
    }
}

} // verus!
