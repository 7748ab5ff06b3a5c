use vstd::prelude::*;

verus! {

/// RAM power down enable mask (bits 1:0).
pub const RAM_PD_EN_MASK: u32 = 3;

} // verus!
