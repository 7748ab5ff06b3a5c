use vstd::prelude::*;

verus! {

/// TBS1 (bits 12:0): buffer 1 size in bytes.
pub const BUFFER1_SIZE_MASK: u32 = 0x0000_1FFF;
/// TBS2 (bits 28:16): buffer 2 size shift.
pub const BUFFER2_SIZE_SHIFT: u32 = 16;
/// TBS2 field mask.
pub const BUFFER2_SIZE_MASK: u32 = 0x1FFF_0000;

} // verus!
