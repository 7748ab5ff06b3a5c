use vstd::prelude::*;

verus! {

/// Address Enable (AE0): when set, the MAC filters unicast frames
/// against ADDR0. Reset value is 1; clearing it disables unicast RX
/// for this slot entirely (broadcast still passes through).
pub const ADDRESS_ENABLE: u32 = 0x8000_0000;

} // verus!
