//! Encoders for a subset of the x86-64 instruction set.
//!
//! An instruction with several variants has a module of its own; the
//! instructions with one variant share `singleton`.
pub mod encoding_funcs;
pub mod utils;

pub use encoding_funcs::{
    add, call, cmp, jcc, jmp, lea, miscellaneous, mnemonics, mov, pop, push, ret, singleton, xor,
};
