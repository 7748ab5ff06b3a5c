//! Native ESP32 Ethernet MAC driver logic.
//!
//! The crate decides everything the EMAC driver does — DMA descriptor
//! rings, frame transmission and reception, the bring-up, start and stop
//! sequences, MDIO transactions, clock configuration, interrupt
//! decoding — and states each decision in its contract. Register
//! accesses are described as [`hw::HwOp`] programs that the code owning
//! the peripheral performs.

pub mod clock;
pub mod config;
pub mod dma;
pub mod emac;
pub mod embassy_net;
pub mod error;
pub mod gpio;
pub mod hw;
pub mod instrumentation;
pub mod interrupt;
pub mod mdio;
pub mod regs;
pub mod reset;

pub use config::{ClkGpio, EmacConfig, RmiiClockConfig, RmiiPins, XtalFreq};
pub use emac::{Duplex, Emac, EmacDefault, EmacSmall, EmacState, Speed};
pub use error::EmacError;
pub use interrupt::InterruptStatus;
pub use mdio::{EspMdio, MdcClockDivider};
