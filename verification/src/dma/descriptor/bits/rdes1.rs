use vstd::prelude::*;

verus! {

/// RBS1 (bits 12:0): buffer 1 size in bytes.
pub const BUFFER1_SIZE_MASK: u32 = 0x0000_1FFF;
/// RCH (bit 14): RDES3 holds the next-descriptor address.
pub const SECOND_ADDR_CHAINED: u32 = 0x0000_4000;
/// RER (bit 15): last descriptor of a ring (ring mode only).
pub const RX_END_OF_RING: u32 = 0x0000_8000;
/// RBS2 (bits 28:16): buffer 2 size shift.
pub const BUFFER2_SIZE_SHIFT: u32 = 16;
/// RBS2 field mask.
pub const BUFFER2_SIZE_MASK: u32 = 0x1FFF_0000;
/// DIC (bit 31): disable interrupt on completion.
pub const DISABLE_INTERRUPT: u32 = 0x8000_0000;

} // verus!
