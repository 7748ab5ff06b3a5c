use vstd::prelude::*;

verus! {

/// 10 Mbps divider number mask (bits 5:0).
pub const DIV_NUM_10M_MASK: u32 = 0x0000_003F;
/// 10 Mbps half-period divider shift (bits 11:6).
pub const H_DIV_NUM_10M_SHIFT: u32 = 6;
/// 100 Mbps divider number shift (bits 17:12).
pub const DIV_NUM_100M_SHIFT: u32 = 12;
/// 100 Mbps half-period divider shift (bits 23:18).
pub const H_DIV_NUM_100M_SHIFT: u32 = 18;
/// Clock source select (bit 24): 0 = internal, 1 = external.
pub const CLK_SEL: u32 = 0x0100_0000;

} // verus!
