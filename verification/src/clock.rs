//! APLL 50 MHz clock configuration and GPIO clock output/input setup.
//!
//! The ESP32 EMAC RMII interface requires a 50 MHz reference clock.
//! It can be generated internally by the Audio PLL (APLL) or supplied
//! externally from the PHY crystal oscillator.
//!
//! ## Internal APLL mode
//!
//! 1. [`configure_apll_50mhz`] powers up APLL and programs its coefficients
//!    via ROM I2C to produce 50 MHz from the on-board crystal.
//! 2. [`configure_emac_clk_out`] sets up a GPIO (0, 16, or 17) as clock
//!    output via IO_MUX function 5 so the PHY receives 50 MHz.
//!
//! ## External clock mode
//!
//! [`configure_emac_clk_in`] sets up a GPIO as clock input via IO_MUX.
//!
//! ## APLL/WiFi conflict
//!
//! APLL cannot coexist with WiFi/BT (ESP32 errata CLK-3.22).
//! Use external clock when Ethernet + WiFi is needed.
//!
//! ## ROM I2C details
//!
//! - APLL I2C block ID: `0x6D`, host ID: **3** (verified on hardware).
//! - ANA_CONF register (`0x3FF4_8030`): bit 24 = PU, bit 23 = PD.
//!
//! Each `configure_*` function returns the hardware program (a sequence
//! of [`HwOp`]s) that performs the configuration.

use vstd::prelude::*;

use crate::config::{spec_gpio_num, xtal_mhz, ClkGpio, XtalFreq};
use crate::hw::{lemma_reg_after_concat, lemma_reg_after_untouched, reg_after, writes, HwOp};

verus! {

// =============================================================================
// APLL ROM I2C constants
// =============================================================================

/// APLL I2C block identifier for ROM I2C functions.
pub const I2C_APLL: u8 = 0x6D;

/// APLL I2C host identifier (ESP32-specific, verified on hardware).
///
/// ESP-IDF headers suggest 0 or 4, but hardware testing confirmed
/// host ID 3 is correct for ESP32 APLL access.
pub const I2C_APLL_HOSTID: u8 = 3;

/// RTC analog configuration register address.
///
/// Contains APLL power-up (bit 24) and power-down (bit 23) controls.
/// From ESP32 SVD: `RTC_CNTL_ANA_CONF_REG`.
pub const ANA_CONF_REG: usize = 0x3FF4_8030;

/// APLL force power-up bit in ANA_CONF (bit 24).
pub const ANA_CONF_PLLA_FORCE_PU: u32 = 0x0100_0000;

/// APLL force power-down bit in ANA_CONF (bit 23).
pub const ANA_CONF_PLLA_FORCE_PD: u32 = 0x0080_0000;

// =============================================================================
// GPIO/IO_MUX constants
// =============================================================================

/// IO_MUX base address (ESP32).
pub const IO_MUX_BASE: usize = 0x3FF4_9000;

/// GPIO peripheral base address.
pub const GPIO_BASE: usize = 0x3FF4_4000;

/// GPIO output function select register base.
/// For GPIO N: `GPIO_FUNC_OUT_SEL_BASE + N*4`.
pub const GPIO_FUNC_OUT_SEL_BASE: usize = GPIO_BASE + 0x530;

/// GPIO output enable set (write-1-to-set) register.
pub const GPIO_ENABLE_W1TS: usize = GPIO_BASE + 0x024;

/// IO_MUX MCU_SEL field mask (bits 14:12).
pub const MCU_SEL_MASK: u32 = 0x0000_7000;

/// IO_MUX FUN_DRV (drive strength) field mask (bits 11:10).
pub const FUN_DRV_MASK: u32 = 0x0000_0C00;

/// IO_MUX FUN_IE (input enable) bit 9.
pub const FUN_IE: u32 = 0x0000_0200;

/// IO_MUX function 5 (EMAC) in the MCU_SEL field: `5 << 12`.
pub const MCU_SEL_EMAC: u32 = 0x0000_5000;

/// Maximum drive strength (3) in the FUN_DRV field: `3 << 10`.
pub const FUN_DRV_MAX: u32 = 0x0000_0C00;

/// GPIO matrix output signal index that disconnects the matrix
/// (`SIG_GPIO_OUT_IDX`), leaving the pad to IO_MUX.
pub const SIG_GPIO_OUT_IDX: u32 = 256;

/// Number of spin-loop iterations to wait after APLL power-up.
///
/// Provides ~10-20 us settling time at typical ESP32 CPU frequencies
/// (160-240 MHz).
pub const APLL_POWER_UP_SPIN: u32 = 10_000;

// =============================================================================
// APLL coefficients
// =============================================================================

/// SDM coefficients for the ESP32 APLL.
///
/// Output frequency formula:
///
/// ```text
/// fout = fxtal * (sdm2 + sdm1/256 + sdm0/65536 + 4) / (2 * (o_div + 2))
/// ```
///
/// For each supported on-board crystal, [`ApllCoefficients::for_xtal`]
/// returns the coefficients that land on **50 MHz** (the RMII reference
/// clock).
#[derive(Debug, Clone, Copy, PartialEq, Eq, Structural)]
pub struct ApllCoefficients {
    /// Fine fractional multiplier (×1/65536). 8-bit field.
    pub sdm0: u8,
    /// Mid fractional multiplier (×1/256). 8-bit field.
    pub sdm1: u8,
    /// Integer-part multiplier (added to fixed +4). 6-bit field.
    pub sdm2: u8,
    /// Output divider field. Final divisor is `2 * (o_div + 2)`. 5-bit
    /// field.
    pub o_div: u8,
}

/// The coefficient table: verified 50 MHz settings per crystal.
///
/// | XTAL  | sdm2 | sdm1 | sdm0 | o_div |
/// |-------|------|------|------|-------|
/// | 26 MHz| 11   | 98   | 118  | 2     |
/// | 32 MHz| 8    | 128  | 0    | 2     |
/// | 40 MHz| 6    | 0    | 0    | 2     |
pub open spec fn apll_table(xtal: XtalFreq) -> ApllCoefficients {
    match xtal {
        XtalFreq::Mhz26 => ApllCoefficients { sdm0: 118, sdm1: 98, sdm2: 11, o_div: 2 },
        XtalFreq::Mhz32 => ApllCoefficients { sdm0: 0, sdm1: 128, sdm2: 8, o_div: 2 },
        XtalFreq::Mhz40 => ApllCoefficients { sdm0: 0, sdm1: 0, sdm2: 6, o_div: 2 },
    }
}

/// APLL output frequency in MHz, in Q16 fixed point (×65536, rounded
/// down), for coefficients `c` and a crystal of `xtal_mhz` MHz.
pub open spec fn apll_fout_mhz_q16(c: ApllCoefficients, xtal_mhz: int) -> int {
    xtal_mhz * ((c.sdm2 + 4) * 65536 + c.sdm1 * 256 + c.sdm0) / (2 * (c.o_div + 2))
}

/// Every crystal's coefficients land on 50 MHz (within 0.0015 MHz: less
/// than 100 in Q16) and fit their register fields (`o_div` in 5 bits,
/// `sdm2` in 6 bits).
pub proof fn lemma_apll_lands_on_50mhz(xtal: XtalFreq)
    ensures
        ({
            let c = apll_table(xtal);
            let q16 = apll_fout_mhz_q16(c, xtal_mhz(xtal));
            &&& -100 < q16 - 50 * 65536 < 100
            &&& c.o_div < 32
            &&& c.sdm2 < 64
        }),
{
    match xtal {
        XtalFreq::Mhz26 => {
            assert(26 * ((11 + 4) * 65536 + 98 * 256 + 118) == 26214396);
            assert(26214396int / 8 == 3276799);
        },
        XtalFreq::Mhz32 => {
            assert(32 * ((8 + 4) * 65536 + 128 * 256 + 0) == 26214400);
            assert(26214400int / 8 == 3276800);
        },
        XtalFreq::Mhz40 => {
            assert(40 * ((6 + 4) * 65536 + 0 * 256 + 0) == 26214400);
            assert(26214400int / 8 == 3276800);
        },
    }
}

impl ApllCoefficients {
    /// Look up the coefficients that produce a 50 MHz APLL output for
    /// the given on-board crystal.
    ///
    /// Total: every [`XtalFreq`] has verified coefficients (see
    /// [`lemma_apll_lands_on_50mhz`]).
    pub fn for_xtal(xtal: XtalFreq) -> (r: Self)
        ensures
            r == apll_table(xtal),
    {
        match xtal {
            // 50 MHz = 26 MHz * (11 + 98/256 + 118/65536 + 4) / 8
            XtalFreq::Mhz26 => Self { sdm0: 118, sdm1: 98, sdm2: 11, o_div: 2 },
            // 50 MHz = 32 MHz * (8 + 128/256 + 0/65536 + 4) / 8
            XtalFreq::Mhz32 => Self { sdm0: 0, sdm1: 128, sdm2: 8, o_div: 2 },
            // 50 MHz = 40 MHz * (6 + 0 + 0 + 4) / 8
            XtalFreq::Mhz40 => Self { sdm0: 0, sdm1: 0, sdm2: 6, o_div: 2 },
        }
    }
}

// =============================================================================
// APLL register field update
// =============================================================================

/// The bits `msb..=lsb` of an 8-bit APLL register.
pub open spec fn apll_field_mask(msb: u8, lsb: u8) -> u8 {
    (((1u16 << ((msb - lsb + 1) as u16)) - 1) as u8) << lsb
}

/// New value of an APLL register whose bits `msb..=lsb` are set to
/// `val`: inside the field the result holds `val`'s low bits shifted to
/// `lsb`, outside it the old value is kept.
pub fn apll_masked_value(old: u8, msb: u8, lsb: u8, val: u8) -> (r: u8)
    requires
        lsb <= msb,
        msb - lsb < 15,
        lsb < 8,
    ensures
        r & apll_field_mask(msb, lsb) == (val << lsb) & apll_field_mask(msb, lsb),
        r & !apll_field_mask(msb, lsb) == old & !apll_field_mask(msb, lsb),
{
    let width: u8 = msb - lsb + 1;
    let w16 = width as u16;
    assert(1u16 << w16 >= 1) by (bit_vector)
        requires
            w16 < 16,
    ;
    let mask = #[verifier::truncate] ((((1u16 << w16) - 1) as u8));
    let new_value = (old & !(mask << lsb)) | ((val & mask) << lsb);
    assert(new_value & (mask << lsb) == (val << lsb) & (mask << lsb)
        && new_value & !(mask << lsb) == old & !(mask << lsb)) by (bit_vector)
        requires
            new_value == (old & !(mask << lsb)) | ((val & mask) << lsb),
            lsb < 8,
    ;
    new_value
}

// =============================================================================
// Clock programs
// =============================================================================

/// The APLL bring-up program for crystal `xtal`: power the APLL up,
/// wait for it to settle, program the SDM coefficients, then run the
/// calibration sequence (from ESP-IDF `clk_ll_apll_set_config`).
pub open spec fn apll_50mhz_program(xtal: XtalFreq) -> Seq<HwOp> {
    let c = apll_table(xtal);
    seq![
        HwOp::Modify {
            addr: ANA_CONF_REG,
            clear: ANA_CONF_PLLA_FORCE_PD,
            set: ANA_CONF_PLLA_FORCE_PU,
        },
        HwOp::Spin { iterations: APLL_POWER_UP_SPIN },
        HwOp::ApllWriteMask { reg: 7, msb: 5, lsb: 0, value: c.sdm2 },
        HwOp::ApllWriteMask { reg: 9, msb: 7, lsb: 0, value: c.sdm0 },
        HwOp::ApllWriteMask { reg: 8, msb: 7, lsb: 0, value: c.sdm1 },
        HwOp::ApllWrite { reg: 5, value: 0x09 },
        HwOp::ApllWrite { reg: 5, value: 0x49 },
        HwOp::ApllWriteMask { reg: 4, msb: 4, lsb: 0, value: c.o_div },
        HwOp::ApllWrite { reg: 0, value: 0x0F },
        HwOp::ApllWrite { reg: 0, value: 0x3F },
        HwOp::ApllWrite { reg: 0, value: 0x1F },
    ]
}

/// The APLL is powered up before its coefficients are written: the
/// program's first step leaves `ANA_CONF` — whatever it held — with
/// `PLLA_FORCE_PU` set and `PLLA_FORCE_PD` clear, no later step writes
/// `ANA_CONF`, and every ROM I2C write comes after that first step. So
/// after any number `k >= 1` of steps, in particular at each coefficient
/// write and at the end, the APLL is forced on.
pub proof fn lemma_apll_powered_before_coefficients(xtal: XtalFreq, v: u32, k: int)
    requires
        1 <= k <= apll_50mhz_program(xtal).len(),
    ensures
        reg_after(apll_50mhz_program(xtal).take(k), ANA_CONF_REG, v) & ANA_CONF_PLLA_FORCE_PU
            != 0,
        reg_after(apll_50mhz_program(xtal).take(k), ANA_CONF_REG, v) & ANA_CONF_PLLA_FORCE_PD
            == 0,
        forall|i: int|
            0 <= i < apll_50mhz_program(xtal).len() && (apll_50mhz_program(xtal)[i] is ApllWrite
                || apll_50mhz_program(xtal)[i] is ApllWriteMask) ==> i >= 1,
{
    let p = apll_50mhz_program(xtal);
    let head = p.take(1);
    let rest = p.take(k).skip(1);
    assert(p.take(k) =~= head + rest);
    lemma_reg_after_concat(head, rest, ANA_CONF_REG, v);
    assert(head.drop_last() =~= Seq::<HwOp>::empty());
    let u = reg_after(head, ANA_CONF_REG, v);
    assert(reg_after(head.drop_last(), ANA_CONF_REG, v) == v);
    assert(head.last() == p[0]);
    assert(u == (v & !0x0080_0000u32) | 0x0100_0000u32);
    assert forall|i: int| 0 <= i < rest.len() implies !writes(#[trigger] rest[i], ANA_CONF_REG) by {
        assert(rest[i] == p[i + 1]);
    }
    lemma_reg_after_untouched(rest, ANA_CONF_REG, u);
    assert(u & 0x0100_0000u32 != 0 && u & 0x0080_0000u32 == 0) by (bit_vector)
        requires
            u == (v & !0x0080_0000u32) | 0x0100_0000u32,
    ;
}

/// Configure ESP32 APLL to output 50 MHz for EMAC RMII clock,
/// using SDM coefficients chosen for the on-board crystal.
///
/// Independent of the EMAC peripheral clock — the program only writes
/// RTC analog registers (`ANA_CONF`) and APLL coefficients via the ROM
/// I2C controller. Only required when the MCU is the RMII clock master
/// (`RmiiClockConfig::InternalApll`).
pub fn configure_apll_50mhz(xtal: XtalFreq) -> (r: Vec<HwOp>)
    ensures
        r@ == apll_50mhz_program(xtal),
{
    let c = ApllCoefficients::for_xtal(xtal);
    let mut ops: Vec<HwOp> = Vec::new();
    // Step 1: Power up APLL: clear PD (bit 23), set PU (bit 24), settle.
    ops.push(
        HwOp::Modify {
            addr: ANA_CONF_REG,
            clear: ANA_CONF_PLLA_FORCE_PD,
            set: ANA_CONF_PLLA_FORCE_PU,
        },
    );
    ops.push(HwOp::Spin { iterations: APLL_POWER_UP_SPIN });
    // Step 2: APLL coefficients.
    ops.push(HwOp::ApllWriteMask { reg: 7, msb: 5, lsb: 0, value: c.sdm2 });
    ops.push(HwOp::ApllWriteMask { reg: 9, msb: 7, lsb: 0, value: c.sdm0 });
    ops.push(HwOp::ApllWriteMask { reg: 8, msb: 7, lsb: 0, value: c.sdm1 });
    // Step 3: Calibration sequence.
    ops.push(HwOp::ApllWrite { reg: 5, value: 0x09 });
    ops.push(HwOp::ApllWrite { reg: 5, value: 0x49 });
    ops.push(HwOp::ApllWriteMask { reg: 4, msb: 4, lsb: 0, value: c.o_div });
    ops.push(HwOp::ApllWrite { reg: 0, value: 0x0F });
    ops.push(HwOp::ApllWrite { reg: 0, value: 0x3F });
    ops.push(HwOp::ApllWrite { reg: 0, value: 0x1F });
    assert(ops@ =~= apll_50mhz_program(xtal));
    ops
}

/// IO_MUX register address of a clock-capable pad (ESP32 TRM Table 4-3).
pub open spec fn spec_io_mux_addr(gpio: ClkGpio) -> usize {
    match gpio {
        ClkGpio::Gpio0 => (IO_MUX_BASE + 0x44) as usize,
        ClkGpio::Gpio16 => (IO_MUX_BASE + 0x4C) as usize,
        ClkGpio::Gpio17 => (IO_MUX_BASE + 0x50) as usize,
    }
}

/// Return the IO_MUX register address for a clock-capable GPIO.
///
/// Based on ESP32 TRM Table 4-3:
/// - GPIO0:  offset 0x44
/// - GPIO16: offset 0x4C
/// - GPIO17: offset 0x50
pub fn io_mux_addr_for_clk_gpio(gpio: ClkGpio) -> (r: usize)
    ensures
        r == spec_io_mux_addr(gpio),
{
    let offset: usize = match gpio {
        ClkGpio::Gpio0 => 0x44,
        ClkGpio::Gpio16 => 0x4C,
        ClkGpio::Gpio17 => 0x50,
    };
    IO_MUX_BASE + offset
}

/// GPIO matrix output-select register of pad `gpio`.
pub open spec fn spec_func_out_sel_addr(gpio: ClkGpio) -> usize {
    (GPIO_FUNC_OUT_SEL_BASE + 4 * spec_gpio_num(gpio)) as usize
}

/// Program driving the 50 MHz clock out of `gpio`: IO_MUX function 5
/// with maximum drive strength, GPIO matrix disconnected, output
/// driver enabled.
pub open spec fn clk_out_program(gpio: ClkGpio) -> Seq<HwOp> {
    seq![
        HwOp::Modify {
            addr: spec_io_mux_addr(gpio),
            clear: MCU_SEL_MASK | FUN_DRV_MASK,
            set: MCU_SEL_EMAC | FUN_DRV_MAX,
        },
        HwOp::Write { addr: spec_func_out_sel_addr(gpio), value: SIG_GPIO_OUT_IDX },
        HwOp::Write { addr: GPIO_ENABLE_W1TS, value: (1u32 << spec_gpio_num(gpio)) },
    ]
}

/// Program taking the 50 MHz clock in on `gpio`: IO_MUX function 5 with
/// input enabled, GPIO matrix output disconnected.
pub open spec fn clk_in_program(gpio: ClkGpio) -> Seq<HwOp> {
    seq![
        HwOp::Modify {
            addr: spec_io_mux_addr(gpio),
            clear: MCU_SEL_MASK,
            set: MCU_SEL_EMAC | FUN_IE,
        },
        HwOp::Write { addr: spec_func_out_sel_addr(gpio), value: SIG_GPIO_OUT_IDX },
    ]
}

/// Configure a GPIO as EMAC 50 MHz RMII clock output via IO_MUX function 5.
///
/// On ESP32, only GPIO0, GPIO16, and GPIO17 support EMAC clock output:
/// - GPIO0:  `EMAC_TX_CLK` (also boot strapping -- use with caution)
/// - GPIO16: `EMAC_CLK_OUT` (0 degree phase)
/// - GPIO17: `EMAC_CLK_OUT_180` (180 degree phase, most common for LAN8720A)
///
/// Must run before the DMA reset.
pub fn configure_emac_clk_out(gpio: ClkGpio) -> (r: Vec<HwOp>)
    ensures
        r@ == clk_out_program(gpio),
{
    let io_mux_addr = io_mux_addr_for_clk_gpio(gpio);
    let gpio_num = gpio.gpio_num();
    let mut ops: Vec<HwOp> = Vec::new();
    // IO_MUX function 5 (EMAC clock) + maximum drive strength (3).
    ops.push(
        HwOp::Modify {
            addr: io_mux_addr,
            clear: MCU_SEL_MASK | FUN_DRV_MASK,
            set: MCU_SEL_EMAC | FUN_DRV_MAX,
        },
    );
    // Disconnect GPIO Matrix -- use IO_MUX directly.
    ops.push(
        HwOp::Write {
            addr: GPIO_FUNC_OUT_SEL_BASE + 4 * (gpio_num as usize),
            value: SIG_GPIO_OUT_IDX,
        },
    );
    // Enable output driver.
    ops.push(HwOp::Write { addr: GPIO_ENABLE_W1TS, value: 1u32 << gpio_num });
    assert(ops@ =~= clk_out_program(gpio));
    ops
}

/// Configure a GPIO as EMAC external 50 MHz clock input via IO_MUX.
///
/// Typically GPIO0 (`EMAC_TX_CLK` / RMII ref clock input). Must run
/// before the DMA reset.
pub fn configure_emac_clk_in(gpio: ClkGpio) -> (r: Vec<HwOp>)
    ensures
        r@ == clk_in_program(gpio),
{
    let io_mux_addr = io_mux_addr_for_clk_gpio(gpio);
    let gpio_num = gpio.gpio_num();
    let mut ops: Vec<HwOp> = Vec::new();
    // IO_MUX function 5 (EMAC clock) + input enable.
    ops.push(
        HwOp::Modify { addr: io_mux_addr, clear: MCU_SEL_MASK, set: MCU_SEL_EMAC | FUN_IE },
    );
    // Disconnect GPIO Matrix output -- use IO_MUX directly.
    ops.push(
        HwOp::Write {
            addr: GPIO_FUNC_OUT_SEL_BASE + 4 * (gpio_num as usize),
            value: SIG_GPIO_OUT_IDX,
        },
    );
    assert(ops@ =~= clk_in_program(gpio));
    ops
}

} // verus!
