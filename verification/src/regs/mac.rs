/// Bit-field constants for `GMACADDR0H`.
pub mod addr0h;
/// Bit-field constants for the GMAC Configuration Register.
pub mod config;
/// Bit-field constants for the GMAC Frame Filter Register.
pub mod frame_filter;
/// Bit-field constants for the GMAC MII Address Register.
///
/// Also used by the MDIO controller to build SMI transactions.
pub mod miiaddr;
/// Bit-field constants for the GMAC Flow Control Register.
pub mod flow_control;

use vstd::prelude::*;

verus! {

/// MAC register block base address (ESP32).
pub const BASE: usize = 0x3FF6_A000;

/// GMAC Configuration Register.
pub const GMACCONFIG: usize = 0;

/// GMAC Frame Filter Register.
pub const GMACFF: usize = 4;

/// GMAC Hash Table High Register.
pub const GMACHASTH: usize = 8;

/// GMAC Hash Table Low Register.
pub const GMACHASTL: usize = 0xC;

/// GMAC MII Address Register.
pub const GMACMIIADDR: usize = 0x10;

/// GMAC MII Data Register.
pub const GMACMIIDATA: usize = 0x14;

/// GMAC Flow Control Register.
pub const GMACFC: usize = 0x18;

/// GMAC VLAN Tag Register.
pub const GMACVLAN: usize = 0x1C;

/// GMAC Debug Register (read-only).
pub const GMACDEBUG: usize = 0x24;

/// GMAC Interrupt Status Register.
pub const GMACINTS: usize = 0x38;

/// GMAC Interrupt Mask Register.
pub const GMACINTMASK: usize = 0x3C;

/// GMAC Address 0 High Register (upper 16 bits of primary MAC).
pub const GMACADDR0H: usize = 0x40;

/// GMAC Address 0 Low Register (lower 32 bits of primary MAC).
pub const GMACADDR0L: usize = 0x44;

} // verus!
