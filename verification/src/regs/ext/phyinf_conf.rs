use vstd::prelude::*;

verus! {

/// PHY interface select shift (3-bit field at bits 15:13).
pub const PHY_INTF_SEL_SHIFT: u32 = 13;
/// PHY interface select mask.
pub const PHY_INTF_SEL_MASK: u32 = 0x0000_E000;
/// PHY interface value for MII mode.
pub const PHY_INTF_MII: u32 = 0;
/// PHY interface value for RMII mode.
pub const PHY_INTF_RMII: u32 = 4;
/// SBD flow control enable (bit 2).
pub const SBD_FLOWCTRL: u32 = 4;
/// Core PHY address shift (5-bit field at bits 7:3).
pub const CORE_PHY_ADDR_SHIFT: u32 = 3;
/// Core PHY address mask.
pub const CORE_PHY_ADDR_MASK: u32 = 0x0000_00F8;

} // verus!
