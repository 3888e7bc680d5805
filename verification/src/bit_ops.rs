//! Small bit-level helpers shared by the format views.

use vstd::prelude::*;

verus! {

/// The word with its sign bit (bit 31) cleared.
pub open spec fn spec_zero_extend(inst: u32) -> u32 {
    inst & 0x7fff_ffff
}

/// Clears bit 31 of the word.
pub fn zero_extend(inst: u32) -> (r: u32)
    ensures
        r == spec_zero_extend(inst),
{
    inst & 0x7fff_ffff
}

} // verus!
