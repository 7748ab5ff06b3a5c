use esp_emac::hw::HwOp;
use esp_emac::mdio::{MAX_PHY_ADDR, MAX_REG_ADDR, MDIO_TIMEOUT_ITERS, MII_ADDR_REG, MII_DATA_REG};
use esp_emac::regs::mac::miiaddr::{CR_MASK, CR_SHIFT, GB, GR_MASK, GW, PA_MASK};
use esp_emac::{EmacError, EspMdio, MdcClockDivider};

#[test]
fn mdc_divider_from_sys_clock() {
    assert_eq!(MdcClockDivider::from_sys_clock_hz(20_000_000), MdcClockDivider::Div16);
    assert_eq!(MdcClockDivider::from_sys_clock_hz(40_000_000), MdcClockDivider::Div26);
    assert_eq!(MdcClockDivider::from_sys_clock_hz(80_000_000), MdcClockDivider::Div42);
    assert_eq!(MdcClockDivider::from_sys_clock_hz(120_000_000), MdcClockDivider::Div62);
    assert_eq!(MdcClockDivider::from_sys_clock_hz(160_000_000), MdcClockDivider::Div102);
    assert_eq!(MdcClockDivider::from_sys_clock_hz(280_000_000), MdcClockDivider::Div124);
}

#[test]
fn mdc_divider_default_is_div42() {
    assert_eq!(MdcClockDivider::default(), MdcClockDivider::Div42);
}

#[test]
fn mdc_divider_reg_values() {
    assert_eq!(MdcClockDivider::Div42.reg_value(), 0);
    assert_eq!(MdcClockDivider::Div62.reg_value(), 1);
    assert_eq!(MdcClockDivider::Div16.reg_value(), 2);
    assert_eq!(MdcClockDivider::Div26.reg_value(), 3);
    assert_eq!(MdcClockDivider::Div102.reg_value(), 4);
    assert_eq!(MdcClockDivider::Div124.reg_value(), 5);
}

#[test]
fn mdc_divider_boundary_35mhz() {
    assert_eq!(MdcClockDivider::from_sys_clock_hz(34_999_999), MdcClockDivider::Div16);
    assert_eq!(MdcClockDivider::from_sys_clock_hz(35_000_000), MdcClockDivider::Div26);
}

#[test]
fn mdc_divider_boundary_60mhz() {
    assert_eq!(MdcClockDivider::from_sys_clock_hz(59_999_999), MdcClockDivider::Div26);
    assert_eq!(MdcClockDivider::from_sys_clock_hz(60_000_000), MdcClockDivider::Div42);
}

#[test]
fn mdc_divider_boundary_100mhz() {
    assert_eq!(MdcClockDivider::from_sys_clock_hz(99_999_999), MdcClockDivider::Div42);
    assert_eq!(MdcClockDivider::from_sys_clock_hz(100_000_000), MdcClockDivider::Div62);
}

#[test]
fn mdc_divider_boundary_150mhz() {
    assert_eq!(MdcClockDivider::from_sys_clock_hz(149_999_999), MdcClockDivider::Div62);
    assert_eq!(MdcClockDivider::from_sys_clock_hz(150_000_000), MdcClockDivider::Div102);
}

#[test]
fn mdc_divider_boundary_250mhz() {
    assert_eq!(MdcClockDivider::from_sys_clock_hz(249_999_999), MdcClockDivider::Div102);
    assert_eq!(MdcClockDivider::from_sys_clock_hz(250_000_000), MdcClockDivider::Div124);
}

#[test]
fn build_mii_addr_read() {
    let mdio = EspMdio::new();
    let addr = mdio.build_mii_addr(1, 0, false);
    assert_eq!(addr, 0x0800 | GB);
}

#[test]
fn build_mii_addr_write() {
    let mdio = EspMdio::new();
    let addr = mdio.build_mii_addr(1, 0, true);
    assert_eq!(addr, 0x0800 | GW | GB);
}

#[test]
fn build_mii_addr_phy_and_reg() {
    let mdio = EspMdio::new();
    let addr = mdio.build_mii_addr(31, 31, false);
    assert_eq!(addr & PA_MASK, 31 << 11);
    assert_eq!(addr & GR_MASK, 31 << 6);
}

#[test]
fn build_mii_addr_clock_divider() {
    let mdio = EspMdio::with_clock_divider(MdcClockDivider::Div102);
    let addr = mdio.build_mii_addr(0, 0, false);
    let cr_field = (addr & CR_MASK) >> CR_SHIFT;
    assert_eq!(cr_field, 4);
}

#[test]
fn max_phy_addr_constant() {
    assert_eq!(MAX_PHY_ADDR, 31);
}

#[test]
fn max_reg_addr_constant() {
    assert_eq!(MAX_REG_ADDR, 31);
}

#[test]
fn mdio_read_rejects_bad_addresses() {
    let mut mdio = EspMdio::new();
    assert_eq!(mdio.read(32, 0), Err(EmacError::InvalidPhyAddress));
    assert_eq!(mdio.read(0, 32), Err(EmacError::InvalidConfig));
    assert_eq!(mdio.write(40, 40, 0), Err(EmacError::InvalidPhyAddress));
    assert_eq!(mdio.write(1, 32, 0), Err(EmacError::InvalidConfig));
}

#[test]
fn mdio_read_program() {
    let mut mdio = EspMdio::new();
    let ops = mdio.read(1, 2).unwrap();
    let wait = HwOp::RequireClear { addr: MII_ADDR_REG, mask: GB, max_polls: MDIO_TIMEOUT_ITERS };
    assert_eq!(
        ops,
        vec![
            wait,
            HwOp::Write { addr: MII_ADDR_REG, value: (1 << 11) | (2 << 6) | GB },
            wait,
            HwOp::ReadLow16 { addr: MII_DATA_REG },
        ]
    );
    assert_eq!(MII_ADDR_REG, 0x3FF6_A010);
    assert_eq!(MII_DATA_REG, 0x3FF6_A014);
}

#[test]
fn mdio_write_program_sends_data_first() {
    let mut mdio = EspMdio::with_clock_divider(MdcClockDivider::Div62);
    let ops = mdio.write(3, 4, 0xBEEF).unwrap();
    let wait = HwOp::RequireClear { addr: MII_ADDR_REG, mask: GB, max_polls: MDIO_TIMEOUT_ITERS };
    assert_eq!(
        ops,
        vec![
            wait,
            HwOp::Write { addr: MII_DATA_REG, value: 0xBEEF },
            HwOp::Write { addr: MII_ADDR_REG, value: (3 << 11) | (4 << 6) | (1 << 2) | GW | GB },
            wait,
        ]
    );
}

#[test]
fn mdc_stays_within_2_5_mhz() {
    let divisor = |d: MdcClockDivider| -> u64 {
        match d {
            MdcClockDivider::Div16 => 16,
            MdcClockDivider::Div26 => 26,
            MdcClockDivider::Div42 => 42,
            MdcClockDivider::Div62 => 62,
            MdcClockDivider::Div102 => 102,
            MdcClockDivider::Div124 => 124,
        }
    };
    for hz in [
        20_000_000u32,
        34_999_999,
        59_999_999,
        80_000_000,
        99_999_999,
        149_999_999,
        249_999_999,
        300_000_000,
        310_000_000,
    ] {
        let d = divisor(MdcClockDivider::from_sys_clock_hz(hz));
        assert!(hz as u64 <= 2_500_000 * d, "{} Hz / {} exceeds 2.5 MHz", hz, d);
    }
}
