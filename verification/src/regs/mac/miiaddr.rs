use vstd::prelude::*;

verus! {

/// Physical Layer Address shift (5-bit field at bits 15:11).
pub const PA_SHIFT: u32 = 11;
/// Physical Layer Address mask.
pub const PA_MASK: u32 = 0x0000_F800;
/// MII Register Address shift (5-bit field at bits 10:6).
pub const GR_SHIFT: u32 = 6;
/// MII Register Address mask.
pub const GR_MASK: u32 = 0x0000_07C0;
/// CSR Clock Range shift (4-bit field at bits 5:2).
pub const CR_SHIFT: u32 = 2;
/// CSR Clock Range mask.
pub const CR_MASK: u32 = 0x0000_003C;
/// MII Write.
pub const GW: u32 = 2;
/// MII Busy.
pub const GB: u32 = 1;

} // verus!
