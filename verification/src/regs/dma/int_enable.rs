use vstd::prelude::*;

verus! {

/// Transmit Interrupt Enable.
pub const TIE: u32 = 1;
/// Transmit Stopped Enable.
pub const TSE: u32 = 2;
/// Transmit Buffer Unavailable Enable.
pub const TUE: u32 = 4;
/// Transmit Jabber Timeout Enable.
pub const TJE: u32 = 8;
/// Overflow Interrupt Enable.
pub const OVE: u32 = 0x0000_0010;
/// Underflow Interrupt Enable.
pub const UNE: u32 = 0x0000_0020;
/// Receive Interrupt Enable.
pub const RIE: u32 = 0x0000_0040;
/// Receive Buffer Unavailable Enable.
pub const RUE: u32 = 0x0000_0080;
/// Receive Stopped Enable.
pub const RSE: u32 = 0x0000_0100;
/// Receive Watchdog Timeout Enable.
pub const RWE: u32 = 0x0000_0200;
/// Early Transmit Interrupt Enable.
pub const ETE: u32 = 0x0000_0400;
/// Fatal Bus Error Enable.
pub const FBE: u32 = 0x0000_2000;
/// Early Receive Interrupt Enable.
pub const ERE: u32 = 0x0000_4000;
/// Abnormal Interrupt Summary Enable.
pub const AIE: u32 = 0x0000_8000;
/// Normal Interrupt Summary Enable.
pub const NIE: u32 = 0x0001_0000;
/// Default interrupt enable mask (normal operation).
pub const DEFAULT: u32 = 0x0001_A041;

} // verus!
