//! Operands that are a register or a place in memory.
use vstd::prelude::*;

use super::gpr::GPR;
use super::memory::Memory;
use super::size::Size;

verus! {

/// An operand that is either a register or a place in memory.
#[derive(Debug, Clone, Copy, PartialEq, Eq, Structural, Hash)]
pub enum GPROrMemory {
    GPR { gpr: GPR },
    Memory { memory: Memory },
}

impl GPROrMemory {
    /// Whether the operand can be encoded: any register, or a valid memory
    /// operand.
    pub open spec fn is_valid(self) -> bool {
        match self {
            GPROrMemory::GPR { .. } => true,
            GPROrMemory::Memory { memory } => memory.is_valid(),
        }
    }

    /// Whether the operand can be encoded as one of the given size: a
    /// register of that size, or a valid memory operand.
    pub open spec fn is_valid_for(self, size: Size) -> bool {
        match self {
            GPROrMemory::GPR { gpr } => gpr.spec_size() == size,
            GPROrMemory::Memory { memory } => memory.is_valid(),
        }
    }

    /// Whether the operand can be encoded as one of the given size.
    #[must_use]
    pub fn check_valid_for(&self, size: Size) -> (valid: bool)
        ensures
            valid == self.is_valid_for(size),
    {
        match self {
            GPROrMemory::GPR { gpr } => gpr.size().equals(size),
            GPROrMemory::Memory { memory } => memory.check_valid(),
        }
    }
}

} // verus!
