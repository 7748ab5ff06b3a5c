/// Bit-field constants for the DMA Bus Mode Register.
pub mod bus_mode;
/// Bit-field constants for the DMA Status Register.
pub mod status;
/// Bit-field constants for the DMA Operation Mode Register.
pub mod operation;
/// Bit-field constants for the DMA Interrupt Enable Register.
pub mod int_enable;

use vstd::prelude::*;

verus! {

/// DMA register block base address (ESP32).
pub const BASE: usize = 0x3FF6_9000;

/// Bus Mode Register.
pub const DMABUSMODE: usize = 0;

/// TX Poll Demand Register.
pub const DMATXPOLLDEMAND: usize = 4;

/// RX Poll Demand Register.
pub const DMARXPOLLDEMAND: usize = 8;

/// RX Descriptor List Address Register.
pub const DMARXBASEADDR: usize = 0xC;

/// TX Descriptor List Address Register.
pub const DMATXBASEADDR: usize = 0x10;

/// Status Register.
pub const DMASTATUS: usize = 0x14;

/// Operation Mode Register.
pub const DMAOPERATION: usize = 0x18;

/// Interrupt Enable Register.
pub const DMAINTENABLE: usize = 0x1C;

/// Missed Frame and Buffer Overflow Counter Register.
pub const DMAMISSEDFR: usize = 0x20;

/// Receive Interrupt Watchdog Timer Register.
pub const DMARXWATCHDOG: usize = 0x24;

/// Current Host TX Descriptor Register (read-only).
pub const DMACURTXDESC: usize = 0x48;

/// Current Host RX Descriptor Register (read-only).
pub const DMACURRXDESC: usize = 0x4C;

/// Current Host TX Buffer Address Register (read-only).
pub const DMACURTXBUFADDR: usize = 0x50;

/// Current Host RX Buffer Address Register (read-only).
pub const DMACURRXBUFADDR: usize = 0x54;

} // verus!
