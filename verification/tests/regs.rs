use esp_emac::regs::dma::{self, bus_mode, int_enable, operation, status};
use esp_emac::regs::ext::{self, clk_ctrl, phyinf_conf};
use esp_emac::regs::mac::{self, config, flow_control, frame_filter, miiaddr};

fn assert_disjoint(bits: &[u32], what: &str) {
    for i in 0..bits.len() {
        for j in (i + 1)..bits.len() {
            assert_eq!(
                bits[i] & bits[j],
                0,
                "{} bits {:#x} and {:#x} overlap",
                what,
                bits[i],
                bits[j]
            );
        }
    }
}

// ── DMA block ─────────────────────────────────────────────

#[test]
fn dma_base_address() {
    assert_eq!(dma::BASE, 0x3FF6_9000);
}

#[test]
fn dma_register_offsets_within_block() {
    let offsets = [
        dma::DMABUSMODE,
        dma::DMATXPOLLDEMAND,
        dma::DMARXPOLLDEMAND,
        dma::DMARXBASEADDR,
        dma::DMATXBASEADDR,
        dma::DMASTATUS,
        dma::DMAOPERATION,
        dma::DMAINTENABLE,
        dma::DMAMISSEDFR,
        dma::DMARXWATCHDOG,
        dma::DMACURTXDESC,
        dma::DMACURRXDESC,
        dma::DMACURTXBUFADDR,
        dma::DMACURRXBUFADDR,
    ];
    for off in offsets {
        assert!(off < 0x800, "offset {:#x} exceeds DMA block size", off);
    }
}

#[test]
fn status_bits_no_overlap() {
    let bits = [
        status::TI,
        status::TPS,
        status::TU,
        status::TJT,
        status::OVF,
        status::UNF,
        status::RI,
        status::RU,
        status::RPS,
        status::RWT,
        status::ETI,
        status::FBI,
        status::ERI,
        status::AIS,
        status::NIS,
    ];
    assert_disjoint(&bits, "status");
}

#[test]
fn all_interrupts_covers_every_status_bit() {
    let manual = status::TI
        | status::TPS
        | status::TU
        | status::TJT
        | status::OVF
        | status::UNF
        | status::RI
        | status::RU
        | status::RPS
        | status::RWT
        | status::ETI
        | status::FBI
        | status::ERI
        | status::AIS
        | status::NIS;
    assert_eq!(status::ALL_INTERRUPTS, manual);
}

#[test]
fn int_enable_bits_no_overlap() {
    let bits = [
        int_enable::TIE,
        int_enable::TSE,
        int_enable::TUE,
        int_enable::TJE,
        int_enable::OVE,
        int_enable::UNE,
        int_enable::RIE,
        int_enable::RUE,
        int_enable::RSE,
        int_enable::RWE,
        int_enable::ETE,
        int_enable::FBE,
        int_enable::ERE,
        int_enable::AIE,
        int_enable::NIE,
    ];
    assert_disjoint(&bits, "int_enable");
}

#[test]
fn operation_start_stop_bits_distinct() {
    assert_eq!(operation::SR & operation::ST, 0);
}

#[test]
fn bus_mode_pbl_field_position() {
    let pbl1 = 1u32 << bus_mode::PBL_SHIFT;
    assert_eq!(pbl1, 0x100);
    assert_eq!(pbl1 & bus_mode::PBL_MASK, pbl1);
}

#[test]
fn dma_base_before_ext_base() {
    assert!(dma::BASE < 0x3FF6_9800);
}

// ── EXT block ─────────────────────────────────────────────

#[test]
fn ext_base_address() {
    assert_eq!(ext::BASE, 0x3FF6_9800);
}

#[test]
fn ext_register_offsets_within_block() {
    let offsets = [
        ext::EX_CLKOUT_CONF,
        ext::EX_OSCCLK_CONF,
        ext::EX_CLK_CTRL,
        ext::EX_PHYINF_CONF,
        ext::EX_PD_SEL,
    ];
    for off in offsets {
        assert!(off < 0x100, "offset {:#x} exceeds EXT block size", off);
    }
}

#[test]
fn clk_ctrl_bits_no_overlap() {
    let bits = [
        clk_ctrl::EXT_EN,
        clk_ctrl::INT_EN,
        clk_ctrl::RX_125_CLK_EN,
        clk_ctrl::MII_CLK_TX_EN,
        clk_ctrl::MII_CLK_RX_EN,
        clk_ctrl::CLK_EN,
    ];
    assert_disjoint(&bits, "clk_ctrl");
}

#[test]
fn phyinf_rmii_value_fits_mask() {
    let rmii_val = phyinf_conf::PHY_INTF_RMII << phyinf_conf::PHY_INTF_SEL_SHIFT;
    assert_eq!(rmii_val & phyinf_conf::PHY_INTF_SEL_MASK, rmii_val);
}

#[test]
fn phyinf_mii_value_is_zero() {
    assert_eq!(phyinf_conf::PHY_INTF_MII, 0);
}

#[test]
fn dport_emac_clock_bit_position() {
    assert_eq!(ext::DPORT_WIFI_CLK_EMAC_EN, 1 << 14);
    assert_eq!(ext::DPORT_WIFI_CLK_EMAC_EN, 0x4000);
}

#[test]
fn io_mux_gpio0_func_emac_tx_clk_fits_mcu_sel() {
    assert!(ext::IO_MUX_GPIO0_FUNC_EMAC_TX_CLK < 8);
}

#[test]
fn base_addresses_in_order() {
    assert!(dma::BASE < ext::BASE);
    assert!(ext::BASE < mac::BASE);
}

// ── MAC block ─────────────────────────────────────────────

#[test]
fn mac_base_address() {
    assert_eq!(mac::BASE, 0x3FF6_A000);
}

#[test]
fn mac_register_offsets_within_block() {
    let offsets = [
        mac::GMACCONFIG,
        mac::GMACFF,
        mac::GMACHASTH,
        mac::GMACHASTL,
        mac::GMACMIIADDR,
        mac::GMACMIIDATA,
        mac::GMACFC,
        mac::GMACVLAN,
        mac::GMACDEBUG,
        mac::GMACINTS,
        mac::GMACINTMASK,
        mac::GMACADDR0H,
        mac::GMACADDR0L,
    ];
    for off in offsets {
        assert!(off < 0x1000, "offset {:#x} exceeds MAC block size", off);
    }
}

#[test]
fn config_bits_no_overlap() {
    let bits = [
        config::RX_ENABLE,
        config::TX_ENABLE,
        config::RETRY_DISABLE,
        config::CHECKSUM_OFFLOAD,
        config::DUPLEX_FULL,
        config::SPEED_100,
        config::PORT_SELECT,
        config::JUMBO_FRAME,
        config::FRAME_BURST,
        config::JABBER_DISABLE,
        config::WATCHDOG_DISABLE,
        config::LINK_UP,
        config::AUTO_PAD_CRC_STRIP,
    ];
    assert_disjoint(&bits, "config");
}

#[test]
fn miiaddr_fields_no_overlap() {
    assert_eq!(miiaddr::GB & miiaddr::GW, 0);
    assert_eq!(miiaddr::CR_MASK & miiaddr::GR_MASK, 0);
    assert_eq!(miiaddr::GR_MASK & miiaddr::PA_MASK, 0);
    assert_eq!(miiaddr::CR_MASK & miiaddr::PA_MASK, 0);
}

#[test]
fn flow_control_bits_no_overlap() {
    let bits = [
        flow_control::FCB_BPA,
        flow_control::TX_ENABLE,
        flow_control::RX_ENABLE,
        flow_control::UNICAST_PAUSE,
        flow_control::ZERO_QUANTA_DISABLE,
    ];
    assert_disjoint(&bits, "flow_control");
}

#[test]
fn frame_filter_bits_no_overlap() {
    let bits = [
        frame_filter::PROMISCUOUS,
        frame_filter::HASH_UNICAST,
        frame_filter::HASH_MULTICAST,
        frame_filter::DA_INVERSE,
        frame_filter::PASS_ALL_MULTICAST,
        frame_filter::DISABLE_BROADCAST,
        frame_filter::RECEIVE_ALL,
    ];
    assert_disjoint(&bits, "frame_filter");
}
