//! The encoding rules, one module for each class of operand encoding.
pub mod enc_I;
pub mod enc_M;
pub mod enc_MI;
pub mod enc_MR;
pub mod enc_O;
pub mod enc_OI;
pub mod helpers;
