use vstd::prelude::*;

verus! {

/// Flow Control Busy / Backpressure Activate.
pub const FCB_BPA: u32 = 1;
/// Transmit Flow Control Enable.
pub const TX_ENABLE: u32 = 2;
/// Receive Flow Control Enable.
pub const RX_ENABLE: u32 = 4;
/// Unicast PAUSE Frame Detect.
pub const UNICAST_PAUSE: u32 = 8;
/// PAUSE Low Threshold shift (2-bit field at bits 5:4).
pub const PLT_SHIFT: u32 = 4;
/// PAUSE Low Threshold mask.
pub const PLT_MASK: u32 = 0x0000_0030;
/// Zero-Quanta PAUSE Disable.
pub const ZERO_QUANTA_DISABLE: u32 = 0x0000_0080;
/// PAUSE Time shift (16-bit field at bits 31:16).
pub const PT_SHIFT: u32 = 16;
/// PAUSE Time mask.
pub const PT_MASK: u32 = 0xFFFF_0000;

} // verus!
