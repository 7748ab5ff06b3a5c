use vstd::prelude::*;

verus! {

/// Receiver Enable.
pub const RX_ENABLE: u32 = 4;
/// Transmitter Enable.
pub const TX_ENABLE: u32 = 8;
/// Automatic Pad/CRC Stripping.
pub const AUTO_PAD_CRC_STRIP: u32 = 0x0000_0080;
/// Link Up/Down (ESP32-specific).
pub const LINK_UP: u32 = 0x0000_0100;
/// Retry Disable.
pub const RETRY_DISABLE: u32 = 0x0000_0200;
/// Checksum Offload (IPC).
pub const CHECKSUM_OFFLOAD: u32 = 0x0000_0400;
/// Duplex Mode: 1 = full duplex.
pub const DUPLEX_FULL: u32 = 0x0000_0800;
/// Speed: 1 = 100 Mbps, 0 = 10 Mbps.
pub const SPEED_100: u32 = 0x0000_4000;
/// Port Select: must be 1 for MII/RMII.
pub const PORT_SELECT: u32 = 0x0000_8000;
/// Inter-Frame Gap shift (3-bit field at bits 19:17).
pub const IFG_SHIFT: u32 = 17;
/// Inter-Frame Gap mask.
pub const IFG_MASK: u32 = 0x000E_0000;
/// Jumbo Frame Enable.
pub const JUMBO_FRAME: u32 = 0x0010_0000;
/// Frame Burst Enable.
pub const FRAME_BURST: u32 = 0x0020_0000;
/// Jabber Disable.
pub const JABBER_DISABLE: u32 = 0x0040_0000;
/// Watchdog Disable.
pub const WATCHDOG_DISABLE: u32 = 0x0080_0000;

} // verus!
