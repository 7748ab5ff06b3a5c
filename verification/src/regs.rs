//! ESP32 EMAC register definitions.
//!
//! Three register blocks:
//! - MAC: frame config, addressing, flow control, MDIO
//! - DMA: descriptor lists, bus mode, interrupts
//! - EXT: clock, RMII/MII mode, GPIO, power
//!
//! Only the addresses and bit layouts live here; the values the driver
//! writes are computed elsewhere in the crate as [`crate::hw::HwOp`]
//! programs.

pub mod dma;
pub mod ext;
pub mod mac;
