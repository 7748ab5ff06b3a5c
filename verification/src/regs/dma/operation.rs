use vstd::prelude::*;

verus! {

/// Start/Stop Receive: 1 = start DMA receive.
pub const SR: u32 = 2;
/// Operate on Second Frame.
pub const OSF: u32 = 4;
/// Receive Threshold Control shift (2-bit field at bits 4:3).
pub const RTC_SHIFT: u32 = 3;
/// Receive Threshold Control mask.
pub const RTC_MASK: u32 = 0x0000_0018;
/// Forward Undersized Good Frames.
pub const FUF: u32 = 0x0000_0040;
/// Forward Error Frames.
pub const FEF: u32 = 0x0000_0080;
/// Start/Stop Transmission: 1 = start DMA transmit.
pub const ST: u32 = 0x0000_2000;
/// Transmit Threshold Control shift (3-bit field at bits 16:14).
pub const TTC_SHIFT: u32 = 14;
/// Transmit Threshold Control mask.
pub const TTC_MASK: u32 = 0x0001_C000;
/// Flush Transmit FIFO.
pub const FTF: u32 = 0x0010_0000;
/// Transmit Store and Forward.
pub const TSF: u32 = 0x0020_0000;
/// Disable Flushing of Received Frames.
pub const DFF: u32 = 0x0100_0000;
/// Receive Store and Forward.
pub const RSF: u32 = 0x0200_0000;
/// Disable Dropping of TCP/IP Checksum Error Frames.
pub const DT: u32 = 0x0400_0000;

} // verus!
