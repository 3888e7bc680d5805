//! The failure contract shared by every decoding stage.

use crate::instructions::InstructionFormat;
use vstd::prelude::*;

verus! {

/// Why a word failed to decode.  Every variant carries the raw word for
/// diagnostics; `UnknownEncoding` also names the format whose sub-field
/// dispatch found no match.
#[derive(Debug, Clone, PartialEq, Eq, Structural)]
pub enum DecodeError {
    /// The opcode selects no known instruction format.
    UnknownFormat { inst: u32 },
    /// The format was resolved, but the funct3 / funct7 / funct5 / immediate
    /// sub-fields match no catalogued instruction of that format.
    UnknownEncoding { inst: u32, format: InstructionFormat },
    /// A quad-precision floating-point encoding was recognized; that
    /// precision is not implemented.
    UnsupportedPrecision { inst: u32 },
    /// A 16-bit compressed encoding was recognized; compressed decoding is
    /// not implemented.
    UnsupportedCompressed { inst: u32 },
}

} // verus!
