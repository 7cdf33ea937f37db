//! The encoders, one for each variant of each instruction.
pub mod add;
pub mod call;
pub mod cmp;
pub mod jcc;
pub mod jmp;
pub mod lea;
pub mod miscellaneous;
pub mod mnemonics;
pub mod mov;
pub mod pop;
pub mod push;
pub mod ret;
pub mod singleton;
pub mod xor;
