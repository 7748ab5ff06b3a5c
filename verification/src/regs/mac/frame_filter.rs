use vstd::prelude::*;

verus! {

/// Promiscuous Mode.
pub const PROMISCUOUS: u32 = 1;
/// Hash Unicast.
pub const HASH_UNICAST: u32 = 2;
/// Hash Multicast.
pub const HASH_MULTICAST: u32 = 4;
/// DA Inverse Filtering.
pub const DA_INVERSE: u32 = 8;
/// Pass All Multicast.
pub const PASS_ALL_MULTICAST: u32 = 0x0000_0010;
/// Disable Broadcast Frames.
pub const DISABLE_BROADCAST: u32 = 0x0000_0020;
/// Receive All.
pub const RECEIVE_ALL: u32 = 0x8000_0000;

} // verus!
