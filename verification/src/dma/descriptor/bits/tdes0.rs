use vstd::prelude::*;

verus! {

/// OWN (bit 31): set while the DMA engine owns the descriptor.
pub const OWN: u32 = 0x8000_0000;
/// IC (bit 30): raise TI once this frame has been transmitted.
pub const INTERRUPT_ON_COMPLETE: u32 = 0x4000_0000;
/// LS (bit 29): buffer holds the last segment of the frame.
pub const LAST_SEGMENT: u32 = 0x2000_0000;
/// FS (bit 28): buffer holds the first segment of the frame.
pub const FIRST_SEGMENT: u32 = 0x1000_0000;
/// DC (bit 27): do not append the CRC.
pub const DISABLE_CRC: u32 = 0x0800_0000;
/// DP (bit 26): do not pad short frames.
pub const DISABLE_PAD: u32 = 0x0400_0000;
/// TTSE (bit 25): capture a transmit timestamp.
pub const TIMESTAMP_ENABLE: u32 = 0x0200_0000;
/// CIC (bits 23:22): checksum insertion control field shift.
pub const CHECKSUM_INSERT_SHIFT: u32 = 22;
/// CIC field mask.
pub const CHECKSUM_INSERT_MASK: u32 = 0x00C0_0000;
/// TER (bit 21): last descriptor of a ring (ring mode only).
pub const TX_END_OF_RING: u32 = 0x0020_0000;
/// TCH (bit 20): TDES3 holds the next-descriptor address.
pub const SECOND_ADDR_CHAINED: u32 = 0x0010_0000;
/// TTSS (bit 17): a transmit timestamp was captured.
pub const TIMESTAMP_STATUS: u32 = 0x0002_0000;
/// IHE (bit 16): IP header checksum error.
pub const IP_HEADER_ERR: u32 = 0x0001_0000;
/// ES (bit 15): error summary.
pub const ERR_SUMMARY: u32 = 0x0000_8000;
/// JT (bit 14): jabber timeout.
pub const JABBER_TIMEOUT: u32 = 0x0000_4000;
/// FF (bit 13): frame flushed by software.
pub const FRAME_FLUSHED: u32 = 0x0000_2000;
/// IPE (bit 12): IP payload checksum error.
pub const PAYLOAD_CHECKSUM_ERR: u32 = 0x0000_1000;
/// LC (bit 11): loss of carrier.
pub const LOSS_OF_CARRIER: u32 = 0x0000_0800;
/// NC (bit 10): no carrier.
pub const NO_CARRIER: u32 = 0x0000_0400;
/// LCO (bit 9): late collision.
pub const LATE_COLLISION: u32 = 0x0000_0200;
/// EC (bit 8): excessive collisions.
pub const EXCESSIVE_COLLISION: u32 = 0x0000_0100;
/// VF (bit 7): VLAN frame.
pub const VLAN_FRAME: u32 = 0x0000_0080;
/// CC (bits 6:3): collision count mask.
pub const COLLISION_COUNT_MASK: u32 = 0x0000_0078;
/// ED (bit 2): excessive deferral.
pub const EXCESSIVE_DEFERRAL: u32 = 0x0000_0004;
/// UF (bit 1): underflow error.
pub const UNDERFLOW_ERR: u32 = 0x0000_0002;
/// DB (bit 0): deferred bit.
pub const DEFERRED: u32 = 0x0000_0001;
/// Every individual TX error flag (IHE, JT, FF, IPE, LC, NC, LCO, EC, ED, UF).
pub const ALL_ERRORS: u32 = 0x0001_7F06;

} // verus!
