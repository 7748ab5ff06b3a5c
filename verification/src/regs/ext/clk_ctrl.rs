use vstd::prelude::*;

verus! {

/// External clock enable (bit 0) — enable external 50 MHz input.
pub const EXT_EN: u32 = 1;
/// Internal clock enable (bit 1) — enable internal APLL clock.
pub const INT_EN: u32 = 2;
/// RX 125 MHz clock enable (bit 2) — for gigabit mode.
pub const RX_125_CLK_EN: u32 = 4;
/// MII TX clock enable (bit 3).
pub const MII_CLK_TX_EN: u32 = 8;
/// MII RX clock enable (bit 4).
pub const MII_CLK_RX_EN: u32 = 0x0000_0010;
/// Main clock enable (bit 5).
pub const CLK_EN: u32 = 0x0000_0020;

} // verus!
