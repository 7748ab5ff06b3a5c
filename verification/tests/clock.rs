use esp_emac::clock::{
    configure_apll_50mhz, configure_emac_clk_in, configure_emac_clk_out, io_mux_addr_for_clk_gpio,
    ApllCoefficients, ANA_CONF_PLLA_FORCE_PD, ANA_CONF_PLLA_FORCE_PU, ANA_CONF_REG,
    FUN_DRV_MASK, GPIO_ENABLE_W1TS, GPIO_FUNC_OUT_SEL_BASE, I2C_APLL, I2C_APLL_HOSTID,
    IO_MUX_BASE, MCU_SEL_MASK,
};
use esp_emac::clock::apll_masked_value;
use esp_emac::hw::HwOp;
use esp_emac::{ClkGpio, XtalFreq};

#[test]
fn clk_gpio_io_mux_addresses() {
    assert_eq!(
        io_mux_addr_for_clk_gpio(ClkGpio::Gpio0),
        0x3FF4_9044,
        "GPIO0 IO_MUX address mismatch"
    );
    assert_eq!(
        io_mux_addr_for_clk_gpio(ClkGpio::Gpio16),
        0x3FF4_904C,
        "GPIO16 IO_MUX address mismatch"
    );
    assert_eq!(
        io_mux_addr_for_clk_gpio(ClkGpio::Gpio17),
        0x3FF4_9050,
        "GPIO17 IO_MUX address mismatch"
    );
}

#[test]
fn clk_gpio_numbers_match_enum() {
    assert_eq!(ClkGpio::Gpio0.gpio_num(), 0);
    assert_eq!(ClkGpio::Gpio16.gpio_num(), 16);
    assert_eq!(ClkGpio::Gpio17.gpio_num(), 17);
}

#[test]
fn ana_conf_bits_no_overlap() {
    assert_eq!(
        ANA_CONF_PLLA_FORCE_PU & ANA_CONF_PLLA_FORCE_PD,
        0,
        "PU and PD bits must not overlap"
    );
}

#[test]
fn ana_conf_bit_positions() {
    assert_eq!(ANA_CONF_PLLA_FORCE_PD, 1 << 23);
    assert_eq!(ANA_CONF_PLLA_FORCE_PU, 1 << 24);
}

#[test]
fn ana_conf_register_address() {
    assert_eq!(ANA_CONF_REG, 0x3FF4_8030);
}

#[test]
fn apll_constants() {
    assert_eq!(I2C_APLL, 0x6D);
    assert_eq!(I2C_APLL_HOSTID, 3);
}

#[test]
fn io_mux_base_consistent_with_ext_regs() {
    assert_eq!(IO_MUX_BASE, esp_emac::regs::ext::IO_MUX_BASE);
}

#[test]
fn gpio_register_layout() {
    assert_eq!(GPIO_FUNC_OUT_SEL_BASE, 0x3FF4_4530);
    assert_eq!(GPIO_ENABLE_W1TS, 0x3FF4_4024);
}

#[test]
fn mcu_sel_mask_covers_function_5() {
    let func5_shifted = 5u32 << 12;
    assert_eq!(func5_shifted & MCU_SEL_MASK, func5_shifted);
}

#[test]
fn fun_drv_max_strength() {
    let max_drv = 3u32 << 10;
    assert_eq!(max_drv & FUN_DRV_MASK, max_drv);
}

/// Output frequency in MHz·Q16 fixed point:
/// fout = fxtal * (sdm2 + sdm1/256 + sdm0/65536 + 4) / (2 * (o_div + 2)).
fn fout_mhz_q16(c: ApllCoefficients, xtal_mhz: u32) -> u64 {
    let num = (xtal_mhz as u64)
        * (((c.sdm2 as u64 + 4) << 16) + (c.sdm1 as u64 * 256) + c.sdm0 as u64);
    let denom = 2 * (c.o_div as u64 + 2);
    num / denom
}

fn assert_50mhz(c: ApllCoefficients, xtal_mhz: u32) {
    let q16 = fout_mhz_q16(c, xtal_mhz);
    let target_q16 = 50u64 << 16;
    let drift = q16.abs_diff(target_q16);
    assert!(
        drift < 100,
        "fout for {} MHz XTAL is {} (Q16) — drift {} from 50 MHz target",
        xtal_mhz,
        q16,
        drift
    );
}

#[test]
fn apll_coefficients_xtal_40_lands_on_50mhz() {
    assert_50mhz(ApllCoefficients::for_xtal(XtalFreq::Mhz40), 40);
}

#[test]
fn apll_coefficients_xtal_32_lands_on_50mhz() {
    assert_50mhz(ApllCoefficients::for_xtal(XtalFreq::Mhz32), 32);
}

#[test]
fn apll_coefficients_xtal_26_lands_on_50mhz() {
    assert_50mhz(ApllCoefficients::for_xtal(XtalFreq::Mhz26), 26);
}

#[test]
fn apll_coefficients_register_field_widths() {
    for xtal in [XtalFreq::Mhz26, XtalFreq::Mhz32, XtalFreq::Mhz40] {
        let c = ApllCoefficients::for_xtal(xtal);
        assert!(c.o_div < 32, "o_div for {:?} = {} doesn't fit 5 bits", xtal, c.o_div);
        assert!(c.sdm2 < 64, "sdm2 for {:?} = {} doesn't fit 6 bits", xtal, c.sdm2);
    }
}

#[test]
fn apll_coefficients_exact_table() {
    let c26 = ApllCoefficients::for_xtal(XtalFreq::Mhz26);
    assert_eq!((c26.sdm2, c26.sdm1, c26.sdm0, c26.o_div), (11, 98, 118, 2));
    let c40 = ApllCoefficients::for_xtal(XtalFreq::Mhz40);
    assert_eq!((c40.sdm2, c40.sdm1, c40.sdm0, c40.o_div), (6, 0, 0, 2));
}

#[test]
fn apll_masked_value_replaces_only_the_field() {
    // Bits 5..=0 of 0b1100_0000 get 0b10_1010.
    assert_eq!(apll_masked_value(0xC0, 5, 0, 0x2A), 0xEA);
    // Bits 4..=0 of 0xFF get 2: the upper three bits stay.
    assert_eq!(apll_masked_value(0xFF, 4, 0, 2), 0xE2);
    // A full-width field replaces the whole register.
    assert_eq!(apll_masked_value(0x12, 7, 0, 0x34), 0x34);
}

#[test]
fn apll_program_writes_the_table_for_the_crystal() {
    let ops = configure_apll_50mhz(XtalFreq::Mhz26);
    assert_eq!(ops.len(), 11);
    assert_eq!(ops[2], HwOp::ApllWriteMask { reg: 7, msb: 5, lsb: 0, value: 11 });
    assert_eq!(ops[3], HwOp::ApllWriteMask { reg: 9, msb: 7, lsb: 0, value: 118 });
    assert_eq!(ops[4], HwOp::ApllWriteMask { reg: 8, msb: 7, lsb: 0, value: 98 });
    assert_eq!(ops[10], HwOp::ApllWrite { reg: 0, value: 0x1F });
}

#[test]
fn clk_out_program_targets_the_pad() {
    let ops = configure_emac_clk_out(ClkGpio::Gpio17);
    assert_eq!(ops.len(), 3);
    assert_eq!(
        ops[0],
        HwOp::Modify { addr: 0x3FF4_9050, clear: 0x7000 | 0x0C00, set: 0x5000 | 0x0C00 }
    );
    assert_eq!(ops[1], HwOp::Write { addr: 0x3FF4_4530 + 4 * 17, value: 256 });
    assert_eq!(ops[2], HwOp::Write { addr: 0x3FF4_4024, value: 1 << 17 });
}

#[test]
fn clk_in_program_enables_input() {
    let ops = configure_emac_clk_in(ClkGpio::Gpio0);
    assert_eq!(ops.len(), 2);
    assert_eq!(ops[0], HwOp::Modify { addr: 0x3FF4_9044, clear: 0x7000, set: 0x5000 | 0x0200 });
    assert_eq!(ops[1], HwOp::Write { addr: 0x3FF4_4530, value: 256 });
}
