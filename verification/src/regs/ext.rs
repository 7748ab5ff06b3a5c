/// Bit-field constants for the Clock Output Configuration Register.
pub mod clkout_conf;
/// Bit-field constants for the Oscillator Clock Configuration Register.
pub mod oscclk_conf;
/// Bit-field constants for the Clock Control Register.
pub mod clk_ctrl;
/// Bit-field constants for the PHY Interface Configuration Register.
pub mod phyinf_conf;
/// Bit-field constants for the Power Down Select Register.
pub mod pd_sel;

use vstd::prelude::*;

verus! {

/// Extension register block base address (ESP32).
pub const BASE: usize = 0x3FF6_9800;

/// DPORT WiFi clock enable register (contains EMAC clock bit).
///
/// DPORT base = `0x3FF0_0000`, WIFI_CLK_EN offset = `0x0CC`.
pub const DPORT_WIFI_CLK_EN_REG: usize = 0x3FF0_00CC;

/// EMAC clock enable bit in `DPORT_WIFI_CLK_EN_REG`.
pub const DPORT_WIFI_CLK_EMAC_EN: u32 = 0x0000_4000;

/// IO_MUX base address (ESP32).
pub const IO_MUX_BASE: usize = 0x3FF4_9000;

/// IO_MUX GPIO0 register offset.
pub const IO_MUX_GPIO0_OFFSET: usize = 0x44;

/// IO_MUX FUN_IE bit (input enable) — bit 9.
pub const IO_MUX_FUN_IE: u32 = 0x0000_0200;

/// IO_MUX MCU_SEL field shift — bits 14:12.
pub const IO_MUX_MCU_SEL_SHIFT: u32 = 12;

/// IO_MUX MCU_SEL field mask (3 bits).
pub const IO_MUX_MCU_SEL_MASK: u32 = 0x0000_7000;

/// EMAC_TX_CLK function for GPIO0 (function 5, used as RMII ref clock input).
pub const IO_MUX_GPIO0_FUNC_EMAC_TX_CLK: u32 = 5;

/// Clock output configuration register.
pub const EX_CLKOUT_CONF: usize = 0;

/// Oscillator clock configuration register.
pub const EX_OSCCLK_CONF: usize = 4;

/// Clock control register.
pub const EX_CLK_CTRL: usize = 8;

/// PHY interface configuration register.
pub const EX_PHYINF_CONF: usize = 0xC;

/// Power down select register.
pub const EX_PD_SEL: usize = 0x10;

} // verus!
