//! Decoding of 32-bit RISC-V instruction words (RV32I with the Zicsr, M, A,
//! F and D extensions) into a typed instruction model, and rendering of that
//! model back into assembler text.
//!
//! The decode pipeline classifies a word by its opcode into one of the six
//! standard instruction formats, extracts the format's bit fields (including
//! sign extension of immediates), and dispatches on the secondary fields
//! (funct3 / funct7 / funct5 / immediate discriminants) to the exact
//! instruction variant.  Every step is specified by spec functions over the
//! raw word and proved against them.

pub mod bit_ops;
pub mod cache;
pub mod decoded_inst;
pub mod decoder;
pub mod error;
pub mod instructions;
pub mod numfmt;
pub mod render;
