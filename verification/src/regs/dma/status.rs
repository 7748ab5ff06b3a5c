use vstd::prelude::*;

verus! {

/// Transmit Interrupt — frame transmission complete.
pub const TI: u32 = 1;
/// Transmit Process Stopped.
pub const TPS: u32 = 2;
/// Transmit Buffer Unavailable.
pub const TU: u32 = 4;
/// Transmit Jabber Timeout.
pub const TJT: u32 = 8;
/// Receive Overflow.
pub const OVF: u32 = 0x0000_0010;
/// Transmit Underflow.
pub const UNF: u32 = 0x0000_0020;
/// Receive Interrupt — frame reception complete.
pub const RI: u32 = 0x0000_0040;
/// Receive Buffer Unavailable.
pub const RU: u32 = 0x0000_0080;
/// Receive Process Stopped.
pub const RPS: u32 = 0x0000_0100;
/// Receive Watchdog Timeout.
pub const RWT: u32 = 0x0000_0200;
/// Early Transmit Interrupt.
pub const ETI: u32 = 0x0000_0400;
/// Fatal Bus Error Interrupt.
pub const FBI: u32 = 0x0000_2000;
/// Early Receive Interrupt.
pub const ERI: u32 = 0x0000_4000;
/// Abnormal Interrupt Summary.
pub const AIS: u32 = 0x0000_8000;
/// Normal Interrupt Summary.
pub const NIS: u32 = 0x0001_0000;
/// Receive Process State shift (3-bit field at bits 19:17).
pub const RS_SHIFT: u32 = 17;
/// Receive Process State mask.
pub const RS_MASK: u32 = 0x000E_0000;
/// Transmit Process State shift (3-bit field at bits 22:20).
pub const TS_SHIFT: u32 = 20;
/// Transmit Process State mask.
pub const TS_MASK: u32 = 0x0070_0000;
/// Error Bits shift (3-bit field at bits 25:23).
pub const EB_SHIFT: u32 = 23;
/// Error Bits mask.
pub const EB_MASK: u32 = 0x0380_0000;
/// All interrupt status bits (for clearing).
pub const ALL_INTERRUPTS: u32 = 0x0001_E7FF;

} // verus!
