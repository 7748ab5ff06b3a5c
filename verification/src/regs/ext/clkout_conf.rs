use vstd::prelude::*;

verus! {

/// Clock output divider number mask (bits 3:0).
pub const DIV_NUM_MASK: u32 = 0x0000_000F;
/// Clock output half-period divider shift (bits 7:4).
pub const H_DIV_NUM_SHIFT: u32 = 4;
/// Clock output half-period divider mask.
pub const H_DIV_NUM_MASK: u32 = 0x0000_00F0;
/// Delay number shift (bits 9:8).
pub const DLY_NUM_SHIFT: u32 = 8;
/// Delay number mask.
pub const DLY_NUM_MASK: u32 = 0x0000_0300;

} // verus!
