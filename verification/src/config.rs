//! EMAC configuration types.

use vstd::prelude::*;

verus! {

/// EMAC configuration.
#[derive(Debug, Clone, Copy)]
pub struct EmacConfig {
    /// RMII clock source.
    pub clock: RmiiClockConfig,
    /// RMII management pins (MDC/MDIO).
    pub pins: RmiiPins,
}

/// RMII reference clock configuration.
///
/// The 50 MHz RMII clock can be generated internally (ESP32 APLL) or
/// supplied externally from a PHY-driven oscillator. Mode selection is
/// hardware-specific and EMAC initialization rejects mismatched GPIO
/// choices with [`crate::EmacError::InvalidConfig`] — see each variant's
/// docs for which pads are valid.
#[derive(Debug, Clone, Copy, PartialEq, Eq, Structural)]
pub enum RmiiClockConfig {
    /// ESP32 APLL generates 50 MHz and drives it out of the chip.
    ///
    /// Valid GPIO choices: [`ClkGpio::Gpio16`] (`EMAC_CLK_OUT`, 0°) or
    /// [`ClkGpio::Gpio17`] (`EMAC_CLK_OUT_180`, 180° — the LAN8720A
    /// reference design preference). [`ClkGpio::Gpio0`] is **invalid**
    /// for this mode: GPIO0 function 5 is `EMAC_TX_CLK`, an input pad.
    ///
    /// The APLL coefficients are those for a 40 MHz crystal
    /// ([`crate::emac::APLL_XTAL`]), the crystal of most ESP32 modules
    /// (WROOM, WROVER, MINI): this mode supports 40 MHz crystals only.
    /// Boards with a 26 MHz or 32 MHz crystal program the APLL with
    /// [`crate::clock::configure_apll_50mhz`] for their [`XtalFreq`]
    /// themselves, or feed an external clock.
    ///
    /// Coexistence note: ESP32 errata CLK-3.22 — the APLL clock signal
    /// emitted on the GPIO pad is corrupted by on-chip RF noise during
    /// WiFi/BT transmission. Boards needing Ethernet + WiFi should use
    /// [`Self::External`].
    InternalApll {
        /// GPIO for clock output. Must be `Gpio16` or `Gpio17`.
        gpio: ClkGpio,
    },
    /// External 50 MHz clock fed in from a PHY crystal or oscillator.
    ///
    /// Valid GPIO choice: [`ClkGpio::Gpio0`] only — that is the only
    /// pad whose function 5 (`EMAC_TX_CLK`) is an input. `Gpio16` /
    /// `Gpio17` are **invalid** here.
    External {
        /// GPIO for clock input. Must be `Gpio0`.
        gpio: ClkGpio,
    },
}

/// Whether a clock configuration pairs its mode with a pad that can
/// carry it: an output pad (16 or 17) for the internal APLL, the input
/// pad 0 for an external clock.
pub open spec fn clock_config_valid(c: RmiiClockConfig) -> bool {
    match c {
        RmiiClockConfig::InternalApll { gpio } => gpio != ClkGpio::Gpio0,
        RmiiClockConfig::External { gpio } => gpio == ClkGpio::Gpio0,
    }
}

/// GPIO pins that can carry the EMAC RMII reference clock on ESP32.
///
/// Direction is fixed by the IO_MUX function 5 wiring:
///
/// - [`Self::Gpio0`] — `EMAC_TX_CLK`, input only — pair with
///   [`RmiiClockConfig::External`].
/// - [`Self::Gpio16`] — `EMAC_CLK_OUT` (0°), output only — pair with
///   [`RmiiClockConfig::InternalApll`].
/// - [`Self::Gpio17`] — `EMAC_CLK_OUT_180` (180°), output only — pair
///   with [`RmiiClockConfig::InternalApll`]. Most common on LAN8720A.
#[derive(Debug, Clone, Copy, PartialEq, Eq, Structural)]
pub enum ClkGpio {
    /// GPIO0 — `EMAC_TX_CLK` input. Also a boot-strapping pin, take
    /// care that the external oscillator does not violate boot timing.
    Gpio0,
    /// GPIO16 — `EMAC_CLK_OUT` (0° phase).
    Gpio16,
    /// GPIO17 — `EMAC_CLK_OUT_180` (180° phase, most common for LAN8720A).
    Gpio17,
}

/// GPIO number of a clock pad.
pub open spec fn spec_gpio_num(g: ClkGpio) -> u8 {
    match g {
        ClkGpio::Gpio0 => 0,
        ClkGpio::Gpio16 => 16,
        ClkGpio::Gpio17 => 17,
    }
}

impl ClkGpio {
    /// Get the GPIO number.
    pub fn gpio_num(self) -> (r: u8)
        ensures
            r == spec_gpio_num(self),
    {
        match self {
            ClkGpio::Gpio0 => 0,
            ClkGpio::Gpio16 => 16,
            ClkGpio::Gpio17 => 17,
        }
    }
}

/// On-board crystal frequency, selecting the APLL coefficients that
/// produce the 50 MHz RMII reference clock.
///
/// It must match the actual crystal: there is no runtime detection.
#[derive(Debug, Clone, Copy, PartialEq, Eq, Structural)]
pub enum XtalFreq {
    /// 26 MHz crystal.
    Mhz26,
    /// 32 MHz crystal.
    Mhz32,
    /// 40 MHz crystal (most ESP32 modules: WROOM, WROVER, MINI).
    Mhz40,
}

/// Crystal frequency in MHz.
pub open spec fn xtal_mhz(x: XtalFreq) -> int {
    match x {
        XtalFreq::Mhz26 => 26,
        XtalFreq::Mhz32 => 32,
        XtalFreq::Mhz40 => 40,
    }
}

/// RMII management pin configuration.
///
/// Data pins (TXD0/1, RXD0/1, TX_EN, CRS_DV) are fixed on ESP32 via IO_MUX
/// and cannot be remapped. Only MDC/MDIO are routed via GPIO Matrix.
#[derive(Debug, Clone, Copy, PartialEq, Eq, Structural)]
pub struct RmiiPins {
    /// MDC (Management Data Clock) — routed via GPIO Matrix, any GPIO.
    pub mdc: u8,
    /// MDIO (Management Data I/O) — routed via GPIO Matrix, any GPIO.
    pub mdio: u8,
}

impl Default for RmiiPins {
    /// Default: MDC=GPIO23, MDIO=GPIO18 (most common ESP32 Ethernet boards).
    fn default() -> (r: Self)
        ensures
            r.mdc == 23,
            r.mdio == 18,
    {
        Self { mdc: 23, mdio: 18 }
    }
}

} // verus!
