use vstd::prelude::*;

verus! {

/// Software Reset — resets all EMAC logic, cleared automatically.
pub const SW_RESET: u32 = 1;
/// DMA Arbitration Scheme: 0 = round-robin, 1 = fixed priority.
pub const DMA_ARB: u32 = 2;
/// Descriptor Skip Length shift (number of dwords to skip).
pub const DSL_SHIFT: u32 = 2;
/// Descriptor Skip Length mask.
pub const DSL_MASK: u32 = 0x0000_007C;
/// Alternate Descriptor Size (8 dwords instead of 4).
pub const ATDS: u32 = 0x0000_0080;
/// Programmable Burst Length shift (max beats per DMA transaction).
pub const PBL_SHIFT: u32 = 8;
/// Programmable Burst Length mask.
pub const PBL_MASK: u32 = 0x0000_3F00;
/// Fixed Burst: 0 = variable length, 1 = fixed length.
pub const FIXED_BURST: u32 = 0x0001_0000;
/// RX DMA Programmable Burst Length shift (when USP=1).
pub const RPBL_SHIFT: u32 = 17;
/// RX DMA Programmable Burst Length mask.
pub const RPBL_MASK: u32 = 0x007E_0000;
/// Use Separate PBL: 1 = use RPBL for RX, PBL for TX.
pub const USP: u32 = 0x0080_0000;
/// PBL x8 Mode: multiplies PBL/RPBL by 8.
pub const PBL_X8: u32 = 0x0100_0000;
/// Address Aligned Beats.
pub const AAL: u32 = 0x0200_0000;
/// Mixed Burst.
pub const MIXED_BURST: u32 = 0x0400_0000;
/// Transmit Priority: 0 = round-robin, 1 = TX has priority.
pub const TX_PRIORITY: u32 = 0x0800_0000;

} // verus!
