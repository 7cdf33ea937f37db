//! Binary encoders for a subset of the x86-64 instruction set.
//!
//! Every encoder returns the exact bytes of one instruction, and states them
//! in its contract as a function of its operands. The encoders follow the
//! conventions of Intel's manual: legacy prefixes, then REX, then the opcode,
//! ModR/M, SIB, displacement and immediate.
//!
//! * [`models`] holds the operands: registers, memory operands, immediates,
//!   and the encoded instruction.
//! * [`encoders`] holds one encoder for each variant of each instruction,
//!   and under [`encoders::utils`] the rules of the classes of operand
//!   encoding on which they rest.
//! * [`generator`] writes the source of such encoders from a table of
//!   instructions.
//! * [`fixed_buffer`] holds the byte buffer in which an instruction is built.
#![allow(non_snake_case)]
#![allow(non_camel_case_types)]
#![allow(clippy::upper_case_acronyms)]

pub mod encoders;
pub mod fixed_buffer;
pub mod generator;
pub mod models;
