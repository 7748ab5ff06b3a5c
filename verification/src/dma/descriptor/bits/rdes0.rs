use vstd::prelude::*;

verus! {

/// OWN (bit 31): set while the DMA engine owns the descriptor.
pub const OWN: u32 = 0x8000_0000;
/// AFM (bit 30): destination address filter fail.
pub const DEST_ADDR_FILTER_FAIL: u32 = 0x4000_0000;
/// FL (bits 29:16): frame length shift.
pub const FRAME_LEN_SHIFT: u32 = 16;
/// FL field mask (frame length including the 4-byte CRC).
pub const FRAME_LEN_MASK: u32 = 0x3FFF_0000;
/// ES (bit 15): error summary.
pub const ERR_SUMMARY: u32 = 0x0000_8000;
/// DE (bit 14): descriptor error.
pub const DESC_ERR: u32 = 0x0000_4000;
/// SAF (bit 13): source address filter fail.
pub const SRC_ADDR_FILTER_FAIL: u32 = 0x0000_2000;
/// LE (bit 12): length error.
pub const LENGTH_ERR: u32 = 0x0000_1000;
/// OE (bit 11): overflow error.
pub const OVERFLOW_ERR: u32 = 0x0000_0800;
/// VLAN (bit 10): VLAN tag present.
pub const VLAN_TAG: u32 = 0x0000_0400;
/// FS (bit 9): first descriptor of a frame.
pub const FIRST_DESC: u32 = 0x0000_0200;
/// LS (bit 8): last descriptor of a frame.
pub const LAST_DESC: u32 = 0x0000_0100;
/// IPC (bit 7): IPv4 header checksum error / timestamp available.
pub const IPC_CHECKSUM_ERR: u32 = 0x0000_0080;
/// LC (bit 6): late collision.
pub const LATE_COLLISION: u32 = 0x0000_0040;
/// FT (bit 5): frame type.
pub const FRAME_TYPE: u32 = 0x0000_0020;
/// RWT (bit 4): receive watchdog timeout.
pub const WATCHDOG_TIMEOUT: u32 = 0x0000_0010;
/// RE (bit 3): receive error.
pub const RECEIVE_ERR: u32 = 0x0000_0008;
/// DBE (bit 2): dribble bit error.
pub const DRIBBLE_ERR: u32 = 0x0000_0004;
/// CE (bit 1): CRC error.
pub const CRC_ERR: u32 = 0x0000_0002;
/// ESA (bit 0): extended status available in RDES4.
pub const EXT_STATUS_AVAIL: u32 = 0x0000_0001;
/// Every individual RX error flag (DE, LE, OE, LC, RWT, RE, DBE, CE).
pub const ALL_ERRORS: u32 = 0x0000_585E;

} // verus!
