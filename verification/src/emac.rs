//! ESP32 EMAC driver.
//!
//! Owns the DMA engine and decides the bring-up, start and stop
//! sequences. Every register access the driver needs is queued as a
//! [`HwOp`] program (see [`crate::hw`]); the code that owns the
//! peripheral drains the queue with [`Emac::take_hw_ops`] and performs
//! it. Initialization is split around the DMA software reset, which
//! needs a delay provider: [`Emac::init`] queues everything before the
//! reset, [`Emac::finish_init`] everything after it.

use vstd::prelude::*;

use crate::clock::{
    apll_50mhz_program, clk_in_program, clk_out_program, configure_apll_50mhz,
    configure_emac_clk_in, configure_emac_clk_out,
};
use crate::config::{clock_config_valid, ClkGpio, EmacConfig, RmiiClockConfig, RmiiPins, XtalFreq};
use crate::dma::engine::{chunks_needed, DmaEngine};
use crate::error::EmacError;
use crate::gpio::{lemma_io_mux_offset_bound, rmii_data_pins_program, route_rmii_data_pins, route_smi_pins, smi_pins_program, smi_pins_valid};
use crate::hw::{
    lemma_reg_after_below, lemma_reg_after_concat, lemma_reg_after_take, lemma_writes_below_concat,
    op_effect, reg_after, writes, writes_below, HwOp,
};
use crate::regs::dma::{self as dma_regs, bus_mode, int_enable, operation, status};
use crate::regs::ext::{self as ext_regs, clk_ctrl, oscclk_conf, pd_sel, phyinf_conf};
use crate::regs::mac::{self as mac_regs, addr0h, config, frame_filter};

verus! {

// =============================================================================
// Register addresses and values
// =============================================================================

/// `GMACCONFIG` address.
pub const MAC_CONFIG_REG: usize = mac_regs::BASE + mac_regs::GMACCONFIG;

/// `GMACFF` (frame filter) address.
pub const MAC_FRAME_FILTER_REG: usize = mac_regs::BASE + mac_regs::GMACFF;

/// `GMACHASTH` (hash table high) address.
pub const MAC_HASH_HIGH_REG: usize = mac_regs::BASE + mac_regs::GMACHASTH;

/// `GMACHASTL` (hash table low) address.
pub const MAC_HASH_LOW_REG: usize = mac_regs::BASE + mac_regs::GMACHASTL;

/// `GMACADDR0H` address.
pub const MAC_ADDR_HIGH_REG: usize = mac_regs::BASE + mac_regs::GMACADDR0H;

/// `GMACADDR0L` address.
pub const MAC_ADDR_LOW_REG: usize = mac_regs::BASE + mac_regs::GMACADDR0L;

/// `DMABUSMODE` address.
pub const DMA_BUS_MODE_REG: usize = dma_regs::BASE + dma_regs::DMABUSMODE;

/// `DMAOPERATION` address.
pub const DMA_OPERATION_REG: usize = dma_regs::BASE + dma_regs::DMAOPERATION;

/// `DMAINTENABLE` address.
pub const DMA_INT_ENABLE_REG: usize = dma_regs::BASE + dma_regs::DMAINTENABLE;

/// `DMASTATUS` address.
pub const DMA_STATUS_REG: usize = dma_regs::BASE + dma_regs::DMASTATUS;

/// `DMARXBASEADDR` address.
pub const DMA_RX_BASE_REG: usize = dma_regs::BASE + dma_regs::DMARXBASEADDR;

/// `DMATXBASEADDR` address.
pub const DMA_TX_BASE_REG: usize = dma_regs::BASE + dma_regs::DMATXBASEADDR;

/// `DMARXPOLLDEMAND` address.
pub const DMA_RX_POLL_REG: usize = dma_regs::BASE + dma_regs::DMARXPOLLDEMAND;

/// `DMATXPOLLDEMAND` address.
pub const DMA_TX_POLL_REG: usize = dma_regs::BASE + dma_regs::DMATXPOLLDEMAND;

/// IO_MUX register of GPIO0.
pub const IO_MUX_GPIO0_REG: usize = ext_regs::IO_MUX_BASE + ext_regs::IO_MUX_GPIO0_OFFSET;

/// `EX_PHYINF_CONF` address.
pub const EXT_PHYINF_REG: usize = ext_regs::BASE + ext_regs::EX_PHYINF_CONF;

/// `EX_OSCCLK_CONF` address.
pub const EXT_OSCCLK_REG: usize = ext_regs::BASE + ext_regs::EX_OSCCLK_CONF;

/// `EX_CLK_CTRL` address.
pub const EXT_CLK_CTRL_REG: usize = ext_regs::BASE + ext_regs::EX_CLK_CTRL;

/// `EX_PD_SEL` address.
pub const EXT_PD_SEL_REG: usize = ext_regs::BASE + ext_regs::EX_PD_SEL;

/// MAC configuration after bring-up: 100 Mbps full duplex, port select,
/// automatic pad/CRC stripping, checksum offload, jabber and watchdog
/// timers disabled.
pub const MAC_DEFAULT_CONFIG: u32 = config::PORT_SELECT | config::SPEED_100 | config::DUPLEX_FULL
    | config::AUTO_PAD_CRC_STRIP | config::CHECKSUM_OFFLOAD | config::JABBER_DISABLE
    | config::WATCHDOG_DISABLE;

/// DMA bus mode after bring-up: fixed 32-beat bursts, address-aligned
/// beats, separate RX burst length and the enhanced 8-word descriptor
/// layout.
pub const DMA_DEFAULT_BUS_MODE: u32 = bus_mode::FIXED_BURST | bus_mode::AAL | bus_mode::USP
    | bus_mode::ATDS | ((32u32 << bus_mode::PBL_SHIFT) & bus_mode::PBL_MASK);

/// `EX_PHYINF_CONF.PHY_INTF_SEL` value selecting RMII.
pub const PHY_INTF_RMII_SEL: u32 = 0x0000_8000;

/// IO_MUX value routing GPIO0 to `EMAC_TX_CLK` (function 5) as an input.
pub const GPIO0_CLOCK_INPUT: u32 = 0x0000_5000 | ext_regs::IO_MUX_FUN_IE;

/// Crystal the APLL coefficients are chosen for when the EMAC drives
/// the RMII clock: [`RmiiClockConfig::InternalApll`] supports 40 MHz
/// crystals only.
pub const APLL_XTAL: XtalFreq = XtalFreq::Mhz40;

/// Polls of `DMAOPERATION.FTF` while the TX FIFO flushes on stop (one
/// poll per 10 µs of a 100 ms budget).
pub const TX_FIFO_FLUSH_POLLS: u32 = 10_000;

// =============================================================================
// Link parameters and driver state
// =============================================================================

/// Link speed.
#[derive(Debug, Clone, Copy, PartialEq, Eq, Structural)]
pub enum Speed {
    /// 10 Mbps.
    Mbps10,
    /// 100 Mbps.
    Mbps100,
}

/// Duplex mode.
#[derive(Debug, Clone, Copy, PartialEq, Eq, Structural)]
pub enum Duplex {
    /// Half duplex.
    Half,
    /// Full duplex.
    Full,
}

/// EMAC driver state.
#[derive(Debug, Clone, Copy, PartialEq, Eq, Structural)]
pub enum EmacState {
    /// Not yet initialized.
    Uninitialized,
    /// Initialization succeeded but DMA/MAC are not running.
    Initialized,
    /// [`Emac::start`] succeeded — DMA active, can transmit/receive.
    Running,
}

// =============================================================================
// Hardware programs
// =============================================================================

/// `GMACADDR0H`: the last two address bytes and the address-enable bit.
pub open spec fn mac_addr_high(mac: Seq<u8>) -> u32 {
    (mac[4] as u32) | ((mac[5] as u32) << 8u32) | addr0h::ADDRESS_ENABLE
}

/// `GMACADDR0L`: the first four address bytes, first byte lowest.
pub open spec fn mac_addr_low(mac: Seq<u8>) -> u32 {
    (mac[0] as u32) | ((mac[1] as u32) << 8u32) | ((mac[2] as u32) << 16u32) | ((mac[3] as u32)
        << 24u32)
}

/// The address filter registers hold exactly the six address bytes —
/// the first four in `GMACADDR0L`, lowest byte first, the last two in
/// the low half of `GMACADDR0H` — and the address-enable bit is set.
pub proof fn lemma_mac_filter_bytes(mac: Seq<u8>)
    requires
        mac.len() == 6,
    ensures
        mac_addr_low(mac) & 0xFF == mac[0] as u32,
        (mac_addr_low(mac) >> 8u32) & 0xFF == mac[1] as u32,
        (mac_addr_low(mac) >> 16u32) & 0xFF == mac[2] as u32,
        mac_addr_low(mac) >> 24u32 == mac[3] as u32,
        mac_addr_high(mac) & 0xFF == mac[4] as u32,
        (mac_addr_high(mac) >> 8u32) & 0xFF == mac[5] as u32,
        mac_addr_high(mac) & addr0h::ADDRESS_ENABLE != 0,
        mac_addr_high(mac) & 0x7FFF_0000 == 0,
{
    let b0 = mac[0];
    let b1 = mac[1];
    let b2 = mac[2];
    let b3 = mac[3];
    let b4 = mac[4];
    let b5 = mac[5];
    let low = mac_addr_low(mac);
    let high = mac_addr_high(mac);
    assert(low & 0xFF == b0 as u32 && (low >> 8u32) & 0xFF == b1 as u32 && (low >> 16u32) & 0xFF
        == b2 as u32 && low >> 24u32 == b3 as u32) by (bit_vector)
        requires
            low == (b0 as u32) | ((b1 as u32) << 8u32) | ((b2 as u32) << 16u32) | ((b3 as u32)
                << 24u32),
    ;
    assert(high & 0xFF == b4 as u32 && (high >> 8u32) & 0xFF == b5 as u32 && high & 0x8000_0000
        != 0 && high & 0x7FFF_0000 == 0) by (bit_vector)
        requires
            high == (b4 as u32) | ((b5 as u32) << 8u32) | 0x8000_0000u32,
    ;
}

/// Programs the MAC address filter: the high word first, then the low
/// word, whose write latches the filter.
pub open spec fn mac_address_program(mac: Seq<u8>) -> Seq<HwOp> {
    seq![
        HwOp::Write { addr: MAC_ADDR_HIGH_REG, value: mac_addr_high(mac) },
        HwOp::Write { addr: MAC_ADDR_LOW_REG, value: mac_addr_low(mac) },
    ]
}

/// Clock pad (and APLL) program for a clock configuration.
pub open spec fn clock_program(c: RmiiClockConfig) -> Seq<HwOp> {
    match c {
        RmiiClockConfig::InternalApll { gpio } => apll_50mhz_program(APLL_XTAL) + clk_out_program(
            gpio,
        ),
        RmiiClockConfig::External { gpio } => clk_in_program(gpio),
    }
}

/// GPIO0 as the RMII reference clock input, for an external clock only.
pub open spec fn gpio0_input_program(c: RmiiClockConfig) -> Seq<HwOp> {
    match c {
        RmiiClockConfig::External { .. } => seq![
            HwOp::Modify {
                addr: IO_MUX_GPIO0_REG,
                clear: ext_regs::IO_MUX_MCU_SEL_MASK,
                set: GPIO0_CLOCK_INPUT,
            },
        ],
        RmiiClockConfig::InternalApll { .. } => Seq::empty(),
    }
}

/// Clock source selection: `EX_OSCCLK_CONF.CLK_SEL` and the
/// internal/external enables of `EX_CLK_CTRL`.
pub open spec fn clock_select_program(c: RmiiClockConfig) -> Seq<HwOp> {
    match c {
        RmiiClockConfig::External { .. } => seq![
            HwOp::Modify { addr: EXT_OSCCLK_REG, clear: 0, set: oscclk_conf::CLK_SEL },
            HwOp::Modify { addr: EXT_CLK_CTRL_REG, clear: clk_ctrl::INT_EN, set: clk_ctrl::EXT_EN },
        ],
        RmiiClockConfig::InternalApll { .. } => seq![
            HwOp::Modify { addr: EXT_OSCCLK_REG, clear: oscclk_conf::CLK_SEL, set: 0 },
            HwOp::Modify { addr: EXT_CLK_CTRL_REG, clear: clk_ctrl::EXT_EN, set: clk_ctrl::INT_EN },
        ],
    }
}

/// A configuration the EMAC can run: the clock pad carries the
/// configured clock direction and both SMI pins have a pad.
pub open spec fn config_valid(cfg: EmacConfig) -> bool {
    clock_config_valid(cfg.clock) && smi_pins_valid(cfg.pins)
}

/// Everything [`Emac::init`] queues, in order: clock pad (and APLL),
/// GPIO0 input for an external clock, SMI and RMII pad routing, the
/// DPORT peripheral clock, RMII interface mode, clock source, EMAC
/// extension clocks and RAM power-up.
pub open spec fn bring_up_program(cfg: EmacConfig) -> Seq<HwOp> {
    clock_program(cfg.clock) + gpio0_input_program(cfg.clock) + smi_pins_program(cfg.pins)
        + rmii_data_pins_program() + seq![
        HwOp::Modify {
            addr: ext_regs::DPORT_WIFI_CLK_EN_REG,
            clear: 0,
            set: ext_regs::DPORT_WIFI_CLK_EMAC_EN,
        },
        HwOp::Modify {
            addr: EXT_PHYINF_REG,
            clear: phyinf_conf::PHY_INTF_SEL_MASK,
            set: PHY_INTF_RMII_SEL,
        },
    ] + clock_select_program(cfg.clock) + seq![
        HwOp::Modify {
            addr: EXT_CLK_CTRL_REG,
            clear: 0,
            set: clk_ctrl::CLK_EN | clk_ctrl::MII_CLK_TX_EN | clk_ctrl::MII_CLK_RX_EN,
        },
        HwOp::Modify { addr: EXT_PD_SEL_REG, clear: pd_sel::RAM_PD_EN_MASK, set: 0 },
    ]
}

/// Below this address lie the IO_MUX, GPIO and RTC registers the pad
/// and clock-pad programs write; the EMAC extension registers lie above.
pub const PAD_REGION_END: usize = 0x3FF5_0000;

/// The pad and clock-pad part of the bring-up writes only below
/// [`PAD_REGION_END`].
proof fn lemma_pad_programs_below(cfg: EmacConfig)
    requires
        config_valid(cfg),
    ensures
        writes_below(
            clock_program(cfg.clock) + gpio0_input_program(cfg.clock) + smi_pins_program(cfg.pins)
                + rmii_data_pins_program(),
            PAD_REGION_END,
        ),
{
    let a = clock_program(cfg.clock);
    match cfg.clock {
        RmiiClockConfig::InternalApll { gpio } => {
            let ap = apll_50mhz_program(APLL_XTAL);
            let co = clk_out_program(gpio);
            assert(writes_below(ap, PAD_REGION_END));
            assert(writes_below(co, PAD_REGION_END));
            lemma_writes_below_concat(ap, co, PAD_REGION_END);
        },
        RmiiClockConfig::External { gpio } => {
            assert(writes_below(clk_in_program(gpio), PAD_REGION_END));
        },
    }
    let b = gpio0_input_program(cfg.clock);
    assert(writes_below(b, PAD_REGION_END));
    lemma_io_mux_offset_bound(cfg.pins.mdc);
    lemma_io_mux_offset_bound(cfg.pins.mdio);
    let c = smi_pins_program(cfg.pins);
    assert(writes_below(c, PAD_REGION_END));
    let d = rmii_data_pins_program();
    assert(writes_below(d, PAD_REGION_END));
    lemma_writes_below_concat(a, b, PAD_REGION_END);
    lemma_writes_below_concat(a + b, c, PAD_REGION_END);
    lemma_writes_below_concat(a + b + c, d, PAD_REGION_END);
}

/// The bring-up selects the clock the configuration names. Whatever
/// the EMAC extension registers held, after [`bring_up_program`]:
/// - for [`RmiiClockConfig::InternalApll`], `EX_CLK_CTRL.INT_EN` is set,
///   `EX_CLK_CTRL.EXT_EN` clear and `EX_OSCCLK_CONF.CLK_SEL` clear — the
///   EMAC runs from the internal APLL path;
/// - for [`RmiiClockConfig::External`], `EXT_EN` is set, `INT_EN` clear
///   and `CLK_SEL` set — it runs from the external clock input;
/// - either way the EMAC clock and both MII clocks are on, the PHY
///   interface is RMII and the EMAC RAM is powered.
pub proof fn lemma_bring_up_clock_source(cfg: EmacConfig, ctrl: u32, osc: u32, phy: u32, pd: u32)
    requires
        config_valid(cfg),
    ensures
        ({
            let p = bring_up_program(cfg);
            let c = reg_after(p, EXT_CLK_CTRL_REG, ctrl);
            let o = reg_after(p, EXT_OSCCLK_REG, osc);
            &&& cfg.clock is InternalApll ==> c & clk_ctrl::INT_EN != 0 && c & clk_ctrl::EXT_EN == 0
                && o & oscclk_conf::CLK_SEL == 0
            &&& cfg.clock is External ==> c & clk_ctrl::EXT_EN != 0 && c & clk_ctrl::INT_EN == 0
                && o & oscclk_conf::CLK_SEL != 0
            &&& c & clk_ctrl::CLK_EN != 0
            &&& c & clk_ctrl::MII_CLK_TX_EN != 0
            &&& c & clk_ctrl::MII_CLK_RX_EN != 0
            &&& reg_after(p, EXT_PHYINF_REG, phy) & phyinf_conf::PHY_INTF_SEL_MASK == (
            phyinf_conf::PHY_INTF_RMII << phyinf_conf::PHY_INTF_SEL_SHIFT)
            &&& reg_after(p, EXT_PD_SEL_REG, pd) & pd_sel::RAM_PD_EN_MASK == 0
        }),
{
    let pads = clock_program(cfg.clock) + gpio0_input_program(cfg.clock) + smi_pins_program(
        cfg.pins,
    ) + rmii_data_pins_program();
    lemma_pad_programs_below(cfg);
    let tail = seq![
        HwOp::Modify {
            addr: ext_regs::DPORT_WIFI_CLK_EN_REG,
            clear: 0,
            set: ext_regs::DPORT_WIFI_CLK_EMAC_EN,
        },
        HwOp::Modify {
            addr: EXT_PHYINF_REG,
            clear: phyinf_conf::PHY_INTF_SEL_MASK,
            set: PHY_INTF_RMII_SEL,
        },
    ] + clock_select_program(cfg.clock) + seq![
        HwOp::Modify {
            addr: EXT_CLK_CTRL_REG,
            clear: 0,
            set: clk_ctrl::CLK_EN | clk_ctrl::MII_CLK_TX_EN | clk_ctrl::MII_CLK_RX_EN,
        },
        HwOp::Modify { addr: EXT_PD_SEL_REG, clear: pd_sel::RAM_PD_EN_MASK, set: 0 },
    ];
    let p = bring_up_program(cfg);
    assert(p =~= pads + tail);
    lemma_reg_after_concat(pads, tail, EXT_CLK_CTRL_REG, ctrl);
    lemma_reg_after_concat(pads, tail, EXT_OSCCLK_REG, osc);
    lemma_reg_after_concat(pads, tail, EXT_PHYINF_REG, phy);
    lemma_reg_after_concat(pads, tail, EXT_PD_SEL_REG, pd);
    lemma_reg_after_below(pads, PAD_REGION_END, EXT_CLK_CTRL_REG, ctrl);
    lemma_reg_after_below(pads, PAD_REGION_END, EXT_OSCCLK_REG, osc);
    lemma_reg_after_below(pads, PAD_REGION_END, EXT_PHYINF_REG, phy);
    lemma_reg_after_below(pads, PAD_REGION_END, EXT_PD_SEL_REG, pd);
    assert(tail.len() == 6);
    assert(tail.take(6) =~= tail);
    assert(tail.take(0) =~= Seq::<HwOp>::empty());
    assert forall|addr: usize, v: u32| #![trigger reg_after(tail, addr, v)]
        true implies reg_after(tail, addr, v) == op_effect(
        tail[5],
        addr,
        op_effect(
            tail[4],
            addr,
            op_effect(tail[3], addr, op_effect(tail[2], addr, op_effect(tail[1], addr, op_effect(tail[0], addr, v)))),
        ),
    ) by {
        lemma_reg_after_take(tail, 0, addr, v);
        lemma_reg_after_take(tail, 1, addr, v);
        lemma_reg_after_take(tail, 2, addr, v);
        lemma_reg_after_take(tail, 3, addr, v);
        lemma_reg_after_take(tail, 4, addr, v);
        lemma_reg_after_take(tail, 5, addr, v);
    }
    let y = phy;
    assert(((y & !0xE000u32) | 0x8000u32) & 0xE000u32 == 0x8000u32) by (bit_vector);
    let z = pd;
    assert(((z & !3u32) | 0u32) & 3u32 == 0) by (bit_vector);
    assert(0x20u32 | 0x08u32 | 0x10u32 == 0x38u32) by (bit_vector);
    assert(4u32 << 13u32 == 0x8000u32) by (bit_vector);
    assert(reg_after(p, EXT_PHYINF_REG, phy) == reg_after(tail, EXT_PHYINF_REG, phy));
    assert(reg_after(p, EXT_PD_SEL_REG, pd) == reg_after(tail, EXT_PD_SEL_REG, pd));
    assert(reg_after(tail, EXT_PHYINF_REG, phy) == ((y & !0xE000u32) | 0x8000u32));
    assert(reg_after(tail, EXT_PD_SEL_REG, pd) == ((z & !3u32) | 0u32));
    let x = ctrl;
    let w = osc;
    match cfg.clock {
        RmiiClockConfig::InternalApll { .. } => {
            assert(tail[2] == HwOp::Modify {
                addr: EXT_OSCCLK_REG,
                clear: oscclk_conf::CLK_SEL,
                set: 0,
            });
            assert(tail[3] == HwOp::Modify {
                addr: EXT_CLK_CTRL_REG,
                clear: clk_ctrl::EXT_EN,
                set: clk_ctrl::INT_EN,
            });
            assert(reg_after(tail, EXT_CLK_CTRL_REG, x) == ((((x & !1u32) | 2u32) & !0u32) | 0x38u32));
            assert(reg_after(tail, EXT_OSCCLK_REG, w) == ((w & !0x0100_0000u32) | 0u32));
            assert(((((x & !1u32) | 2u32) & !0u32) | 0x38u32) & 2u32 != 0 && ((((x & !1u32) | 2u32)
                & !0u32) | 0x38u32) & 1u32 == 0 && ((((x & !1u32) | 2u32) & !0u32) | 0x38u32)
                & 0x20u32 != 0 && ((((x & !1u32) | 2u32) & !0u32) | 0x38u32) & 0x08u32 != 0 && ((((x & !1u32) | 2u32) & !0u32) | 0x38u32) & 0x10u32 != 0 && ((w & !0x0100_0000u32) | 0u32) & 0x0100_0000u32 == 0)
                by (bit_vector);
        },
        RmiiClockConfig::External { .. } => {
            assert(tail[2] == HwOp::Modify { addr: EXT_OSCCLK_REG, clear: 0, set: oscclk_conf::CLK_SEL });
            assert(tail[3] == HwOp::Modify {
                addr: EXT_CLK_CTRL_REG,
                clear: clk_ctrl::INT_EN,
                set: clk_ctrl::EXT_EN,
            });
            assert(reg_after(tail, EXT_CLK_CTRL_REG, x) == ((((x & !2u32) | 1u32) & !0u32) | 0x38u32));
            assert(reg_after(tail, EXT_OSCCLK_REG, w) == ((w & !0u32) | 0x0100_0000u32));
            assert(((((x & !2u32) | 1u32) & !0u32) | 0x38u32) & 1u32 != 0 && ((((x & !2u32) | 1u32)
                & !0u32) | 0x38u32) & 2u32 == 0 && ((((x & !2u32) | 1u32) & !0u32) | 0x38u32)
                & 0x20u32 != 0 && ((((x & !2u32) | 1u32) & !0u32) | 0x38u32) & 0x08u32 != 0 && ((((x & !2u32) | 1u32) & !0u32) | 0x38u32) & 0x10u32 != 0 && ((w & !0u32) | 0x0100_0000u32) & 0x0100_0000u32 != 0)
                by (bit_vector);
        },
    }
}

/// Everything [`Emac::finish_init`] queues after the DMA reset: MAC
/// defaults, frame filter (all multicast), empty hash table, DMA bus and
/// operation mode (store-and-forward both ways), interrupts masked and
/// cleared, the descriptor ring bases, and the MAC address.
pub open spec fn configure_program(mac: Seq<u8>, rx_base: u32, tx_base: u32) -> Seq<HwOp> {
    seq![
        HwOp::Write { addr: MAC_CONFIG_REG, value: MAC_DEFAULT_CONFIG },
        HwOp::Write { addr: MAC_FRAME_FILTER_REG, value: frame_filter::PASS_ALL_MULTICAST },
        HwOp::Write { addr: MAC_HASH_HIGH_REG, value: 0 },
        HwOp::Write { addr: MAC_HASH_LOW_REG, value: 0 },
        HwOp::Write { addr: DMA_BUS_MODE_REG, value: DMA_DEFAULT_BUS_MODE },
        HwOp::Write { addr: DMA_OPERATION_REG, value: operation::TSF | operation::RSF },
        HwOp::Write { addr: DMA_INT_ENABLE_REG, value: 0 },
        HwOp::Write { addr: DMA_STATUS_REG, value: status::ALL_INTERRUPTS },
        HwOp::Write { addr: DMA_RX_BASE_REG, value: rx_base },
        HwOp::Write { addr: DMA_TX_BASE_REG, value: tx_base },
    ] + mac_address_program(mac)
}

/// [`Emac::start`]: clear and enable interrupts, then MAC TX, DMA TX,
/// DMA RX, MAC RX, and an RX poll demand.
pub open spec fn start_program() -> Seq<HwOp> {
    seq![
        HwOp::Write { addr: DMA_STATUS_REG, value: status::ALL_INTERRUPTS },
        HwOp::Write { addr: DMA_INT_ENABLE_REG, value: int_enable::DEFAULT },
        HwOp::Modify { addr: MAC_CONFIG_REG, clear: 0, set: config::TX_ENABLE },
        HwOp::Modify { addr: DMA_OPERATION_REG, clear: 0, set: operation::ST },
        HwOp::Modify { addr: DMA_OPERATION_REG, clear: 0, set: operation::SR },
        HwOp::Modify { addr: MAC_CONFIG_REG, clear: 0, set: config::RX_ENABLE },
        HwOp::Write { addr: DMA_RX_POLL_REG, value: 1 },
    ]
}

/// [`Emac::stop`]: stop DMA TX, flush the TX FIFO (best effort), disable
/// MAC TX and RX, stop DMA RX, mask all interrupts.
pub open spec fn stop_program() -> Seq<HwOp> {
    seq![
        HwOp::Modify { addr: DMA_OPERATION_REG, clear: operation::ST, set: 0 },
        HwOp::Modify { addr: DMA_OPERATION_REG, clear: 0, set: operation::FTF },
        HwOp::PollClear {
            addr: DMA_OPERATION_REG,
            mask: operation::FTF,
            max_polls: TX_FIFO_FLUSH_POLLS,
        },
        HwOp::Modify {
            addr: MAC_CONFIG_REG,
            clear: config::TX_ENABLE | config::RX_ENABLE,
            set: 0,
        },
        HwOp::Modify { addr: DMA_OPERATION_REG, clear: operation::SR, set: 0 },
        HwOp::Write { addr: DMA_INT_ENABLE_REG, value: 0 },
    ]
}

/// After [`start_program`], whatever the registers held, the DMA
/// transmit and receive processes are both started (`DMAOPERATION.ST`
/// and `.SR` set), the MAC transmitter and receiver are both enabled
/// (`GMACCONFIG.TE` and `.RE` set), and the default interrupts are
/// unmasked.
pub proof fn lemma_start_runs_both_directions(op_reg: u32, cfg_reg: u32, ie_reg: u32)
    ensures
        reg_after(start_program(), DMA_OPERATION_REG, op_reg) & operation::ST != 0,
        reg_after(start_program(), DMA_OPERATION_REG, op_reg) & operation::SR != 0,
        reg_after(start_program(), MAC_CONFIG_REG, cfg_reg) & config::TX_ENABLE != 0,
        reg_after(start_program(), MAC_CONFIG_REG, cfg_reg) & config::RX_ENABLE != 0,
        reg_after(start_program(), DMA_INT_ENABLE_REG, ie_reg) == int_enable::DEFAULT,
{
    reveal_with_fuel(reg_after, 8);
    let o = op_reg;
    let c = cfg_reg;
    assert(((((o & !0u32) | 0x2000u32) & !0u32) | 2u32) & 0x2000u32 != 0 && ((((o & !0u32)
        | 0x2000u32) & !0u32) | 2u32) & 2u32 != 0) by (bit_vector);
    assert(((((c & !0u32) | 8u32) & !0u32) | 4u32) & 8u32 != 0 && ((((c & !0u32) | 8u32) & !0u32)
        | 4u32) & 4u32 != 0) by (bit_vector);
}

/// After [`stop_program`], whatever the registers held, the DMA
/// transmit and receive processes are stopped (`DMAOPERATION.ST` and
/// `.SR` clear), the MAC transmitter and receiver are disabled, and all
/// interrupts are masked: stop undoes what start turned on.
pub proof fn lemma_stop_halts_both_directions(op_reg: u32, cfg_reg: u32, ie_reg: u32)
    ensures
        reg_after(stop_program(), DMA_OPERATION_REG, op_reg) & operation::ST == 0,
        reg_after(stop_program(), DMA_OPERATION_REG, op_reg) & operation::SR == 0,
        reg_after(stop_program(), MAC_CONFIG_REG, cfg_reg) & config::TX_ENABLE == 0,
        reg_after(stop_program(), MAC_CONFIG_REG, cfg_reg) & config::RX_ENABLE == 0,
        reg_after(stop_program(), DMA_INT_ENABLE_REG, ie_reg) == 0,
{
    reveal_with_fuel(reg_after, 7);
    let o = op_reg;
    let c = cfg_reg;
    let o3 = ((((o & !0x2000u32) | 0u32) & !0u32) | 0x0010_0000u32);
    assert(((o3 & !2u32) | 0u32) & 0x2000u32 == 0 && ((o3 & !2u32) | 0u32) & 2u32 == 0)
        by (bit_vector)
        requires
            o3 == ((((o & !0x2000u32) | 0u32) & !0u32) | 0x0010_0000u32),
    ;
    assert(((c & !(8u32 | 4u32)) | 0u32) & 8u32 == 0 && ((c & !(8u32 | 4u32)) | 0u32) & 4u32 == 0)
        by (bit_vector);
}

/// Sets (`on`) or clears one `GMACCONFIG` bit.
pub open spec fn config_bit_op(bit: u32, on: bool) -> HwOp {
    if on {
        HwOp::Modify { addr: MAC_CONFIG_REG, clear: 0, set: bit }
    } else {
        HwOp::Modify { addr: MAC_CONFIG_REG, clear: bit, set: 0 }
    }
}

/// TX poll demand: wakes the TX DMA out of its suspended state.
pub open spec fn tx_poll_demand() -> HwOp {
    HwOp::Write { addr: DMA_TX_POLL_REG, value: 1 }
}

/// RX poll demand: wakes the RX DMA out of its suspended state.
pub open spec fn rx_poll_demand() -> HwOp {
    HwOp::Write { addr: DMA_RX_POLL_REG, value: 1 }
}

/// The result of a [`Emac::stop`] once its program has run: `flushed`
/// tells whether the TX FIFO flush (`DMAOPERATION.FTF`) cleared within
/// [`TX_FIFO_FLUSH_POLLS`] polls. A flush that ran out is reported as
/// [`EmacError::TxFlushTimeout`]; the rest of the teardown has run all
/// the same and the driver is stopped, so starting again is safe.
pub fn stop_outcome(flushed: bool) -> (r: Result<(), EmacError>)
    ensures
        r == if flushed {
            Ok::<(), EmacError>(())
        } else {
            Err::<(), EmacError>(EmacError::TxFlushTimeout)
        },
{
    if flushed {
        Ok(())
    } else {
        Err(EmacError::TxFlushTimeout)
    }
}

// =============================================================================
// EMAC driver
// =============================================================================

/// ESP32 EMAC driver with statically allocated DMA buffers.
///
/// The DMA descriptor chain is self-referential, so the driver MUST be
/// placed in its final memory location BEFORE [`finish_init`](Self::finish_init)
/// is called.
pub struct Emac<const RX: usize, const TX: usize, const BUF: usize> {
    dma: DmaEngine<RX, TX, BUF>,
    config: EmacConfig,
    state: EmacState,
    mac_address: [u8; 6],
    bring_up_queued: bool,
    current_speed: Option<Speed>,
    current_duplex: Option<Duplex>,
    pending: Vec<HwOp>,
}

impl<const RX: usize, const TX: usize, const BUF: usize> Emac<RX, TX, BUF> {
    // ── Model ─────────────────────────────────────────────

    /// The DMA engine.
    pub closed spec fn dma(&self) -> DmaEngine<RX, TX, BUF> {
        self.dma
    }

    /// The configuration the driver was created with.
    pub closed spec fn spec_config(&self) -> EmacConfig {
        self.config
    }

    /// The driver state.
    pub closed spec fn spec_state(&self) -> EmacState {
        self.state
    }

    /// The cached MAC address.
    pub closed spec fn spec_mac(&self) -> Seq<u8> {
        self.mac_address@
    }

    /// Whether [`init`](Self::init) queued the bring-up program and
    /// [`finish_init`](Self::finish_init) has not run since.
    pub closed spec fn spec_bring_up_queued(&self) -> bool {
        self.bring_up_queued
    }

    /// The link speed and duplex mode last applied to `GMACCONFIG` by
    /// [`set_speed`](Self::set_speed) and [`set_duplex`](Self::set_duplex).
    pub closed spec fn spec_link(&self) -> (Option<Speed>, Option<Duplex>) {
        (self.current_speed, self.current_duplex)
    }

    /// Register accesses queued and not yet taken.
    pub closed spec fn pending_ops(&self) -> Seq<HwOp> {
        self.pending@
    }

    /// Well-formedness: the DMA engine is well formed, and a driver past
    /// initialization has its descriptor chains set up.
    pub open spec fn wf(&self) -> bool {
        &&& self.dma().wf()
        &&& self.spec_mac().len() == 6
        &&& self.spec_state() != EmacState::Uninitialized ==> self.dma().spec_initialized()
    }

    /// Create a new (uninitialized) driver.
    pub fn new(config: EmacConfig) -> (r: Self)
        ensures
            DmaEngine::<RX, TX, BUF>::params_ok() ==> r.wf(),
            r.spec_state() == EmacState::Uninitialized,
            r.spec_config() == config,
            r.spec_mac() == seq![0u8, 0, 0, 0, 0, 0],
            !r.spec_bring_up_queued(),
            r.spec_link() == (None::<Speed>, None::<Duplex>),
            r.pending_ops() == Seq::<HwOp>::empty(),
            !r.dma().spec_initialized(),
    {
        let r = Self {
            dma: DmaEngine::new(),
            config,
            state: EmacState::Uninitialized,
            mac_address: [0; 6],
            bring_up_queued: false,
            current_speed: None,
            current_duplex: None,
            pending: Vec::new(),
        };
        assert(r.spec_mac() =~= seq![0u8, 0, 0, 0, 0, 0]);
        r
    }

    // ── State accessors ────────────────────────────────────

    /// Current driver state.
    pub fn state(&self) -> (r: EmacState)
        ensures
            r == self.spec_state(),
    {
        self.state
    }

    /// The cached MAC address.
    pub fn mac_address(&self) -> (r: [u8; 6])
        ensures
            r@ == self.spec_mac(),
    {
        self.mac_address
    }

    /// The configuration the driver was created with.
    pub fn config(&self) -> (r: &EmacConfig)
        ensures
            *r == self.spec_config(),
    {
        &self.config
    }

    /// Total static memory used by this EMAC instance: the DMA engine's
    /// descriptor rings and buffers.
    pub fn memory_usage() -> (r: usize)
        requires
            RX * (32 + BUF) + TX * (32 + BUF) <= usize::MAX,
        ensures
            r == RX * 32 + TX * 32 + RX * BUF + TX * BUF,
    {
        DmaEngine::<RX, TX, BUF>::memory_usage()
    }

    /// Hand over the queued register accesses, in order, and empty the
    /// queue.
    pub fn take_hw_ops(&mut self) -> (r: Vec<HwOp>)
        ensures
            r@ == old(self).pending_ops(),
            final(self).pending_ops() == Seq::<HwOp>::empty(),
            final(self).dma() == old(self).dma(),
            final(self).spec_state() == old(self).spec_state(),
            final(self).spec_config() == old(self).spec_config(),
            final(self).spec_mac() == old(self).spec_mac(),
            final(self).spec_bring_up_queued() == old(self).spec_bring_up_queued(),
            final(self).spec_link() == old(self).spec_link(),
    {
        let mut out: Vec<HwOp> = Vec::new();
        out.append(&mut self.pending);
        out
    }

    fn queue(&mut self, op: HwOp)
        ensures
            final(self).pending_ops() == old(self).pending_ops().push(op),
            final(self).dma() == old(self).dma(),
            final(self).spec_state() == old(self).spec_state(),
            final(self).spec_config() == old(self).spec_config(),
            final(self).spec_mac() == old(self).spec_mac(),
            final(self).spec_bring_up_queued() == old(self).spec_bring_up_queued(),
            final(self).spec_link() == old(self).spec_link(),
    {
        self.pending.push(op);
    }

    fn queue_all(&mut self, ops: Vec<HwOp>)
        ensures
            final(self).pending_ops() == old(self).pending_ops() + ops@,
            final(self).dma() == old(self).dma(),
            final(self).spec_state() == old(self).spec_state(),
            final(self).spec_config() == old(self).spec_config(),
            final(self).spec_mac() == old(self).spec_mac(),
            final(self).spec_bring_up_queued() == old(self).spec_bring_up_queued(),
            final(self).spec_link() == old(self).spec_link(),
    {
        let mut ops = ops;
        self.pending.append(&mut ops);
    }
}


impl<const RX: usize, const TX: usize, const BUF: usize> Emac<RX, TX, BUF> {
    // ── Configuration ──────────────────────────────────────

    /// Set the MAC address.
    ///
    /// If the driver has been initialized, the hardware filter registers
    /// are reprogrammed as well.
    pub fn set_mac_address(&mut self, mac: [u8; 6])
        ensures
            final(self).spec_mac() == mac@,
            final(self).pending_ops() == if old(self).spec_state() == EmacState::Uninitialized {
                old(self).pending_ops()
            } else {
                old(self).pending_ops() + mac_address_program(mac@)
            },
            final(self).dma() == old(self).dma(),
            final(self).spec_state() == old(self).spec_state(),
            final(self).spec_config() == old(self).spec_config(),
            final(self).spec_bring_up_queued() == old(self).spec_bring_up_queued(),
            final(self).spec_link() == old(self).spec_link(),
    {
        self.mac_address = mac;
        if self.state != EmacState::Uninitialized {
            self.program_mac_address();
        }
    }

    /// Queue the MAC address filter program for the cached address.
    fn program_mac_address(&mut self)
        ensures
            final(self).pending_ops() == old(self).pending_ops() + mac_address_program(
                old(self).spec_mac(),
            ),
            final(self).dma() == old(self).dma(),
            final(self).spec_state() == old(self).spec_state(),
            final(self).spec_config() == old(self).spec_config(),
            final(self).spec_mac() == old(self).spec_mac(),
            final(self).spec_bring_up_queued() == old(self).spec_bring_up_queued(),
            final(self).spec_link() == old(self).spec_link(),
    {
        let m = self.mac_address;
        let high: u32 = (m[4] as u32) | ((m[5] as u32) << 8u32) | addr0h::ADDRESS_ENABLE;
        let low: u32 = (m[0] as u32) | ((m[1] as u32) << 8u32) | ((m[2] as u32) << 16u32) | ((
        m[3] as u32) << 24u32);
        self.queue(HwOp::Write { addr: MAC_ADDR_HIGH_REG, value: high });
        self.queue(HwOp::Write { addr: MAC_ADDR_LOW_REG, value: low });
        assert(self.pending_ops() =~= old(self).pending_ops() + mac_address_program(
            old(self).spec_mac(),
        ));
    }

    /// Apply the link speed reported by the PHY (`GMACCONFIG.FES`).
    /// Ignored before initialization, and when the speed last applied
    /// is the same: a steady link costs no register write.
    pub fn set_speed(&mut self, speed: Speed)
        ensures
            old(self).spec_state() == EmacState::Uninitialized || old(self).spec_link().0
                == Some(speed) ==> *final(self) == *old(self),
            old(self).spec_state() != EmacState::Uninitialized && old(self).spec_link().0
                != Some(speed) ==> final(self).pending_ops() == old(self).pending_ops().push(
                config_bit_op(config::SPEED_100, speed == Speed::Mbps100),
            ) && final(self).spec_link().0 == Some(speed) && final(self).spec_link().1
                == old(self).spec_link().1,
            final(self).dma() == old(self).dma(),
            final(self).spec_state() == old(self).spec_state(),
            final(self).spec_config() == old(self).spec_config(),
            final(self).spec_mac() == old(self).spec_mac(),
            final(self).spec_bring_up_queued() == old(self).spec_bring_up_queued(),
    {
        if self.state == EmacState::Uninitialized {
            return;
        }
        if self.current_speed == Some(speed) {
            return;
        }
        let op = match speed {
            Speed::Mbps100 => HwOp::Modify { addr: MAC_CONFIG_REG, clear: 0, set: config::SPEED_100 },
            Speed::Mbps10 => HwOp::Modify { addr: MAC_CONFIG_REG, clear: config::SPEED_100, set: 0 },
        };
        self.queue(op);
        self.current_speed = Some(speed);
    }

    /// Apply the duplex mode reported by the PHY (`GMACCONFIG.DM`).
    /// Ignored before initialization, and when the mode last applied is
    /// the same: a steady link costs no register write.
    pub fn set_duplex(&mut self, duplex: Duplex)
        ensures
            old(self).spec_state() == EmacState::Uninitialized || old(self).spec_link().1
                == Some(duplex) ==> *final(self) == *old(self),
            old(self).spec_state() != EmacState::Uninitialized && old(self).spec_link().1
                != Some(duplex) ==> final(self).pending_ops() == old(self).pending_ops().push(
                config_bit_op(config::DUPLEX_FULL, duplex == Duplex::Full),
            ) && final(self).spec_link().1 == Some(duplex) && final(self).spec_link().0
                == old(self).spec_link().0,
            final(self).dma() == old(self).dma(),
            final(self).spec_state() == old(self).spec_state(),
            final(self).spec_config() == old(self).spec_config(),
            final(self).spec_mac() == old(self).spec_mac(),
            final(self).spec_bring_up_queued() == old(self).spec_bring_up_queued(),
    {
        if self.state == EmacState::Uninitialized {
            return;
        }
        if self.current_duplex == Some(duplex) {
            return;
        }
        let op = match duplex {
            Duplex::Full => HwOp::Modify { addr: MAC_CONFIG_REG, clear: 0, set: config::DUPLEX_FULL },
            Duplex::Half => HwOp::Modify { addr: MAC_CONFIG_REG, clear: config::DUPLEX_FULL, set: 0 },
        };
        self.queue(op);
        self.current_duplex = Some(duplex);
    }
}


/// Whether `new` equals `old` but for the queued register accesses.
pub open spec fn same_but_queue<const RX: usize, const TX: usize, const BUF: usize>(
    old: &Emac<RX, TX, BUF>,
    new: &Emac<RX, TX, BUF>,
) -> bool {
    &&& new.dma() == old.dma()
    &&& new.spec_state() == old.spec_state()
    &&& new.spec_config() == old.spec_config()
    &&& new.spec_mac() == old.spec_mac()
    &&& new.spec_bring_up_queued() == old.spec_bring_up_queued()
    &&& new.spec_link() == old.spec_link()
}

impl<const RX: usize, const TX: usize, const BUF: usize> Emac<RX, TX, BUF> {
    // ── Initialization ─────────────────────────────────────

    /// First half of initialization: validate the configuration and
    /// queue the bring-up up to the DMA software reset (see
    /// [`bring_up_program`]). The reset follows, performed with a delay
    /// provider by the code that owns the peripheral; then
    /// [`finish_init`](Self::finish_init).
    ///
    /// Fails with [`EmacError::AlreadyInitialized`] once initialized and
    /// with [`EmacError::InvalidConfig`] when the clock pad cannot carry
    /// the configured clock direction or an SMI pin has no pad; nothing
    /// changes then.
    pub fn init(&mut self) -> (r: Result<(), EmacError>)
        ensures
            old(self).spec_state() != EmacState::Uninitialized ==> r == Err::<(), EmacError>(
                EmacError::AlreadyInitialized,
            ) && *final(self) == *old(self),
            old(self).spec_state() == EmacState::Uninitialized && !config_valid(
                old(self).spec_config(),
            ) ==> r == Err::<(), EmacError>(EmacError::InvalidConfig) && *final(self) == *old(
                self,
            ),
            old(self).spec_state() == EmacState::Uninitialized && config_valid(
                old(self).spec_config(),
            ) ==> r == Ok::<(), EmacError>(()) && final(self).pending_ops() == old(
                self,
            ).pending_ops() + bring_up_program(old(self).spec_config())
                && final(self).spec_bring_up_queued() && final(self).dma() == old(self).dma()
                && final(self).spec_state() == old(self).spec_state() && final(self).spec_config()
                == old(self).spec_config() && final(self).spec_mac() == old(self).spec_mac()
                && final(self).spec_link() == old(self).spec_link(),
    {
        if self.state != EmacState::Uninitialized {
            return Err(EmacError::AlreadyInitialized);
        }
        let valid = match self.config.clock {
            RmiiClockConfig::InternalApll { gpio } => !matches!(gpio, ClkGpio::Gpio0),
            RmiiClockConfig::External { gpio } => matches!(gpio, ClkGpio::Gpio0),
        };
        if !valid {
            return Err(EmacError::InvalidConfig);
        }
        let cfg = self.config;
        let smi = match route_smi_pins(cfg.pins) {
            Some(ops) => ops,
            None => return Err(EmacError::InvalidConfig),
        };
        let ghost old_ops = self.pending_ops();

        // 1. Clock GPIO + APLL (or input pad for an external clock).
        self.configure_clock();
        // 2. SMI pins from the configuration, fixed RMII data pins.
        if let RmiiClockConfig::External { .. } = cfg.clock {
            self.queue(
                HwOp::Modify {
                    addr: IO_MUX_GPIO0_REG,
                    clear: ext_regs::IO_MUX_MCU_SEL_MASK,
                    set: GPIO0_CLOCK_INPUT,
                },
            );
        }
        let ghost after_pads = self.pending_ops();
        self.queue_all(smi);
        self.queue_all(route_rmii_data_pins());
        // 3. EMAC peripheral clock through DPORT.
        self.queue(
            HwOp::Modify {
                addr: ext_regs::DPORT_WIFI_CLK_EN_REG,
                clear: 0,
                set: ext_regs::DPORT_WIFI_CLK_EMAC_EN,
            },
        );
        // 4. RMII interface with the configured clock source.
        self.queue(
            HwOp::Modify {
                addr: EXT_PHYINF_REG,
                clear: phyinf_conf::PHY_INTF_SEL_MASK,
                set: PHY_INTF_RMII_SEL,
            },
        );
        let ghost after_mode = self.pending_ops();
        match cfg.clock {
            RmiiClockConfig::External { .. } => {
                self.queue(HwOp::Modify { addr: EXT_OSCCLK_REG, clear: 0, set: oscclk_conf::CLK_SEL });
                self.queue(
                    HwOp::Modify {
                        addr: EXT_CLK_CTRL_REG,
                        clear: clk_ctrl::INT_EN,
                        set: clk_ctrl::EXT_EN,
                    },
                );
            },
            RmiiClockConfig::InternalApll { .. } => {
                self.queue(HwOp::Modify { addr: EXT_OSCCLK_REG, clear: oscclk_conf::CLK_SEL, set: 0 });
                self.queue(
                    HwOp::Modify {
                        addr: EXT_CLK_CTRL_REG,
                        clear: clk_ctrl::EXT_EN,
                        set: clk_ctrl::INT_EN,
                    },
                );
            },
        }
        let ghost after_select = self.pending_ops();
        // 5. EMAC extension clocks + RAM power-up.
        self.queue(
            HwOp::Modify {
                addr: EXT_CLK_CTRL_REG,
                clear: 0,
                set: clk_ctrl::CLK_EN | clk_ctrl::MII_CLK_TX_EN | clk_ctrl::MII_CLK_RX_EN,
            },
        );
        self.queue(HwOp::Modify { addr: EXT_PD_SEL_REG, clear: pd_sel::RAM_PD_EN_MASK, set: 0 });
        self.bring_up_queued = true;
        proof {
            assert(after_pads =~= old_ops + clock_program(cfg.clock) + gpio0_input_program(cfg.clock));
            assert(after_select =~= after_mode + clock_select_program(cfg.clock));
            assert(self.pending_ops() =~= old_ops + bring_up_program(cfg));
        }
        Ok(())
    }

    /// Queue the clock pad program: APLL at 50 MHz driven out of the
    /// configured pad, or the pad taking an external clock in.
    fn configure_clock(&mut self)
        ensures
            final(self).pending_ops() == old(self).pending_ops() + clock_program(
                old(self).spec_config().clock,
            ),
            same_but_queue(&*old(self), &*final(self)),
    {
        match self.config.clock {
            RmiiClockConfig::InternalApll { gpio } => {
                let apll = configure_apll_50mhz(APLL_XTAL);
                self.queue_all(apll);
                let out = configure_emac_clk_out(gpio);
                self.queue_all(out);
                assert(self.pending_ops() =~= old(self).pending_ops() + clock_program(
                    old(self).spec_config().clock,
                ));
            },
            RmiiClockConfig::External { gpio } => {
                let input = configure_emac_clk_in(gpio);
                self.queue_all(input);
            },
        }
    }

    /// Second half of initialization, after the DMA software reset:
    /// `reset_ok` tells whether `DMABUSMODE.SWR` cleared in time.
    ///
    /// On success the descriptor chains are set up and
    /// [`configure_program`] is queued with their ring bases; the driver
    /// is then [`EmacState::Initialized`]. A reset that did not complete
    /// fails with [`EmacError::DmaResetTimeout`] and leaves the driver
    /// uninitialized, needing [`init`](Self::init) again. Without a
    /// preceding [`init`](Self::init) this fails with
    /// [`EmacError::NotInitialized`]; once initialized, with
    /// [`EmacError::AlreadyInitialized`].
    pub fn finish_init(&mut self, reset_ok: bool) -> (r: Result<(), EmacError>)
        requires
            old(self).wf(),
        ensures
            final(self).wf(),
            old(self).spec_state() != EmacState::Uninitialized ==> r == Err::<(), EmacError>(
                EmacError::AlreadyInitialized,
            ) && *final(self) == *old(self),
            old(self).spec_state() == EmacState::Uninitialized && !old(self).spec_bring_up_queued()
                ==> r == Err::<(), EmacError>(EmacError::NotInitialized) && *final(self) == *old(
                self,
            ),
            old(self).spec_state() == EmacState::Uninitialized && old(self).spec_bring_up_queued()
                && !reset_ok ==> r == Err::<(), EmacError>(EmacError::DmaResetTimeout)
                && !final(self).spec_bring_up_queued() && final(self).dma() == old(self).dma()
                && final(self).spec_state() == old(self).spec_state() && final(self).spec_config()
                == old(self).spec_config() && final(self).spec_mac() == old(self).spec_mac()
                && final(self).spec_link() == old(self).spec_link()
                && final(self).pending_ops() == old(self).pending_ops(),
            old(self).spec_state() == EmacState::Uninitialized && old(self).spec_bring_up_queued()
                && reset_ok ==> r == Ok::<(), EmacError>(()) && final(self).spec_state()
                == EmacState::Initialized && !final(self).spec_bring_up_queued()
                && DmaEngine::<RX, TX, BUF>::set_up_from(
                &old(self).dma(),
                &final(self).dma(),
                final(self).dma().rx_base_link(),
                final(self).dma().tx_base_link(),
            ) && final(self).pending_ops() == old(self).pending_ops() + configure_program(
                old(self).spec_mac(),
                final(self).dma().rx_base_link(),
                final(self).dma().tx_base_link(),
            ) && final(self).spec_config() == old(self).spec_config() && final(self).spec_mac()
                == old(self).spec_mac() && final(self).spec_link() == old(self).spec_link(),
    {
        if self.state != EmacState::Uninitialized {
            return Err(EmacError::AlreadyInitialized);
        }
        if !self.bring_up_queued {
            return Err(EmacError::NotInitialized);
        }
        self.bring_up_queued = false;
        if !reset_ok {
            return Err(EmacError::DmaResetTimeout);
        }
        let ghost old_ops = self.pending_ops();

        // MAC defaults and frame filter (all multicast; broadcast is
        // accepted by default), empty hash table.
        self.queue(HwOp::Write { addr: MAC_CONFIG_REG, value: MAC_DEFAULT_CONFIG });
        self.queue(HwOp::Write { addr: MAC_FRAME_FILTER_REG, value: frame_filter::PASS_ALL_MULTICAST });
        self.queue(HwOp::Write { addr: MAC_HASH_HIGH_REG, value: 0 });
        self.queue(HwOp::Write { addr: MAC_HASH_LOW_REG, value: 0 });
        // DMA bus mode (enhanced descriptors), store-and-forward, all
        // interrupts masked and cleared.
        self.queue(HwOp::Write { addr: DMA_BUS_MODE_REG, value: DMA_DEFAULT_BUS_MODE });
        self.queue(HwOp::Write { addr: DMA_OPERATION_REG, value: operation::TSF | operation::RSF });
        self.queue(HwOp::Write { addr: DMA_INT_ENABLE_REG, value: 0 });
        self.queue(HwOp::Write { addr: DMA_STATUS_REG, value: status::ALL_INTERRUPTS });
        // Descriptor chains and their base addresses.
        let (rx_base, tx_base) = self.dma.init();
        self.queue(HwOp::Write { addr: DMA_RX_BASE_REG, value: rx_base });
        self.queue(HwOp::Write { addr: DMA_TX_BASE_REG, value: tx_base });
        // MAC address filter (high word first, low word latches).
        self.program_mac_address();
        self.state = EmacState::Initialized;
        assert(self.pending_ops() =~= old_ops + configure_program(
            old(self).spec_mac(),
            rx_base,
            tx_base,
        ));
        Ok(())
    }

    // ── Start / stop ───────────────────────────────────────

    /// Start TX/RX (DMA + MAC): reset the descriptor chains and queue
    /// [`start_program`]. Starting a running driver does nothing.
    pub fn start(&mut self) -> (r: Result<(), EmacError>)
        requires
            old(self).wf(),
        ensures
            final(self).wf(),
            old(self).spec_state() == EmacState::Uninitialized ==> r == Err::<(), EmacError>(
                EmacError::NotInitialized,
            ) && *final(self) == *old(self),
            old(self).spec_state() == EmacState::Running ==> r == Ok::<(), EmacError>(())
                && *final(self) == *old(self),
            old(self).spec_state() == EmacState::Initialized ==> r == Ok::<(), EmacError>(())
                && final(self).spec_state() == EmacState::Running
                && DmaEngine::<RX, TX, BUF>::set_up_from(
                &old(self).dma(),
                &final(self).dma(),
                final(self).dma().rx_base_link(),
                final(self).dma().tx_base_link(),
            ) && final(self).pending_ops() == old(self).pending_ops() + start_program()
                && final(self).spec_config() == old(self).spec_config() && final(self).spec_mac()
                == old(self).spec_mac() && final(self).spec_bring_up_queued() == old(
                self,
            ).spec_bring_up_queued() && final(self).spec_link() == old(self).spec_link(),
    {
        match self.state {
            EmacState::Initialized => {},
            EmacState::Running => return Ok(()),
            EmacState::Uninitialized => return Err(EmacError::NotInitialized),
        }
        let ghost old_ops = self.pending_ops();
        // Hand every descriptor back to its initial owner.
        let (_rx_base, _tx_base) = self.dma.reset();
        self.queue(HwOp::Write { addr: DMA_STATUS_REG, value: status::ALL_INTERRUPTS });
        self.queue(HwOp::Write { addr: DMA_INT_ENABLE_REG, value: int_enable::DEFAULT });
        // MAC TX, DMA TX, DMA RX, then MAC RX.
        self.queue(HwOp::Modify { addr: MAC_CONFIG_REG, clear: 0, set: config::TX_ENABLE });
        self.queue(HwOp::Modify { addr: DMA_OPERATION_REG, clear: 0, set: operation::ST });
        self.queue(HwOp::Modify { addr: DMA_OPERATION_REG, clear: 0, set: operation::SR });
        self.queue(HwOp::Modify { addr: MAC_CONFIG_REG, clear: 0, set: config::RX_ENABLE });
        // RX poll demand so the DMA leaves the suspended state.
        self.queue(HwOp::Write { addr: DMA_RX_POLL_REG, value: 1 });
        self.state = EmacState::Running;
        assert(self.pending_ops() =~= old_ops + start_program());
        Ok(())
    }

    /// Stop TX/RX: queue [`stop_program`]. Stopping a stopped driver
    /// does nothing; a driver that was never initialized fails with
    /// [`EmacError::NotInitialized`]. Whether the TX FIFO flush finished
    /// in time is known once the program has run: see [`stop_outcome`].
    pub fn stop(&mut self) -> (r: Result<(), EmacError>)
        requires
            old(self).wf(),
        ensures
            final(self).wf(),
            old(self).spec_state() == EmacState::Uninitialized ==> r == Err::<(), EmacError>(
                EmacError::NotInitialized,
            ) && *final(self) == *old(self),
            old(self).spec_state() == EmacState::Initialized ==> r == Ok::<(), EmacError>(())
                && *final(self) == *old(self),
            old(self).spec_state() == EmacState::Running ==> r == Ok::<(), EmacError>(())
                && final(self).spec_state() == EmacState::Initialized && final(self).dma() == old(
                self,
            ).dma() && final(self).pending_ops() == old(self).pending_ops() + stop_program()
                && final(self).spec_config() == old(self).spec_config() && final(self).spec_mac()
                == old(self).spec_mac() && final(self).spec_bring_up_queued() == old(
                self,
            ).spec_bring_up_queued() && final(self).spec_link() == old(self).spec_link(),
    {
        match self.state {
            EmacState::Running => {},
            EmacState::Initialized => return Ok(()),
            EmacState::Uninitialized => return Err(EmacError::NotInitialized),
        }
        let ghost old_ops = self.pending_ops();
        // Stop DMA TX and flush the TX FIFO (best effort).
        self.queue(HwOp::Modify { addr: DMA_OPERATION_REG, clear: operation::ST, set: 0 });
        self.queue(HwOp::Modify { addr: DMA_OPERATION_REG, clear: 0, set: operation::FTF });
        self.queue(
            HwOp::PollClear {
                addr: DMA_OPERATION_REG,
                mask: operation::FTF,
                max_polls: TX_FIFO_FLUSH_POLLS,
            },
        );
        // MAC TX and RX off, then DMA RX.
        self.queue(
            HwOp::Modify {
                addr: MAC_CONFIG_REG,
                clear: config::TX_ENABLE | config::RX_ENABLE,
                set: 0,
            },
        );
        self.queue(HwOp::Modify { addr: DMA_OPERATION_REG, clear: operation::SR, set: 0 });
        self.queue(HwOp::Write { addr: DMA_INT_ENABLE_REG, value: 0 });
        self.state = EmacState::Initialized;
        assert(self.pending_ops() =~= old_ops + stop_program());
        Ok(())
    }
}


impl<const RX: usize, const TX: usize, const BUF: usize> Emac<RX, TX, BUF> {
    // ── Frame I/O ──────────────────────────────────────────

    /// Transmit a frame: queue it on the TX ring, then a TX poll demand.
    ///
    /// Does not wait for descriptors: check
    /// [`can_transmit`](Self::can_transmit) first or be ready for
    /// [`EmacError::NoDescriptorsAvailable`]. Fails with
    /// [`EmacError::NotInitialized`] unless running; on any error nothing
    /// changes.
    pub fn transmit(&mut self, data: &[u8]) -> (r: Result<usize, EmacError>)
        requires
            old(self).wf(),
        ensures
            final(self).wf(),
            old(self).spec_state() != EmacState::Running ==> r == Err::<usize, EmacError>(
                EmacError::NotInitialized,
            ),
            r.is_err() ==> *final(self) == *old(self),
            old(self).spec_state() == EmacState::Running ==> {
                let d = old(self).dma();
                let n = data@.len() as int;
                &&& n == 0 ==> r == Err::<usize, EmacError>(EmacError::InvalidLength)
                &&& n > BUF * TX ==> r == Err::<usize, EmacError>(EmacError::FrameTooLarge)
                &&& 0 < n <= BUF * TX && chunks_needed(n, BUF as int) > d.spec_tx_available()
                    ==> r == Err::<usize, EmacError>(EmacError::NoDescriptorsAvailable)
                &&& d.spec_can_transmit(n) ==> r == Ok::<usize, EmacError>(n as usize)
                    && DmaEngine::<RX, TX, BUF>::tx_queued(
                    &d,
                    &final(self).dma(),
                    data@,
                    chunks_needed(n, BUF as int),
                ) && final(self).dma().spec_tx_available() == d.spec_tx_available()
                    - chunks_needed(n, BUF as int) && final(self).pending_ops() == old(
                    self,
                ).pending_ops().push(tx_poll_demand()) && final(self).spec_state() == old(
                    self,
                ).spec_state() && final(self).spec_config() == old(self).spec_config()
                    && final(self).spec_mac() == old(self).spec_mac()
                    && final(self).spec_bring_up_queued() == old(self).spec_bring_up_queued()
                    && final(self).spec_link() == old(self).spec_link()
            },
    {
        if self.state != EmacState::Running {
            return Err(EmacError::NotInitialized);
        }
        let n = match self.dma.transmit(data) {
            Ok(n) => n,
            Err(e) => return Err(e),
        };
        // Kick the TX DMA out of the suspended state.
        self.queue(HwOp::Write { addr: DMA_TX_POLL_REG, value: 1 });
        Ok(n)
    }

    /// Receive a frame, if any, into `buffer`; after a frame is taken an
    /// RX poll demand is queued. Fails with
    /// [`EmacError::NotInitialized`] unless running.
    ///
    /// A frame longer than the RX buffers it spans cannot be received:
    /// see [`receive_fits`](Self::receive_fits).
    pub fn receive(&mut self, buffer: &mut [u8]) -> (r: Result<Option<usize>, EmacError>)
        requires
            old(self).wf(),
            old(self).spec_state() == EmacState::Running ==> old(self).dma().spec_receive_fits(
                old(buffer)@.len(),
            ),
        ensures
            final(self).wf(),
            old(self).spec_state() != EmacState::Running ==> r == Err::<Option<usize>, EmacError>(
                EmacError::NotInitialized,
            ) && *final(self) == *old(self) && final(buffer)@ == old(buffer)@,
            old(self).spec_state() == EmacState::Running ==> {
                let d = old(self).dma();
                let blen = old(buffer)@.len();
                &&& r == d.receive_result(blen)
                &&& DmaEngine::<RX, TX, BUF>::rx_consumed(
                    &d,
                    &final(self).dma(),
                    d.receive_consumed(blen) as int,
                )
                &&& final(buffer)@ == d.receive_buffer(old(buffer)@)
                &&& final(self).pending_ops() == if r matches Ok(Some(_)) {
                    old(self).pending_ops().push(rx_poll_demand())
                } else {
                    old(self).pending_ops()
                }
                &&& final(self).spec_state() == old(self).spec_state()
                &&& final(self).spec_config() == old(self).spec_config()
                &&& final(self).spec_mac() == old(self).spec_mac()
                &&& final(self).spec_bring_up_queued() == old(self).spec_bring_up_queued()
                &&& final(self).spec_link() == old(self).spec_link()
            },
    {
        if self.state != EmacState::Running {
            return Err(EmacError::NotInitialized);
        }
        let result = match self.dma.receive(buffer) {
            Ok(res) => res,
            Err(e) => return Err(e),
        };
        if result.is_some() {
            // A descriptor went back to the DMA: leave the suspended state.
            self.queue(HwOp::Write { addr: DMA_RX_POLL_REG, value: 1 });
        }
        Ok(result)
    }

    /// Whether [`receive`](Self::receive) can take the pending frame into
    /// a buffer of `buffer_len` bytes.
    pub fn receive_fits(&self, buffer_len: usize) -> (r: bool)
        requires
            self.wf(),
        ensures
            r == self.dma().spec_receive_fits(buffer_len as nat),
    {
        self.dma.receive_fits(buffer_len)
    }

    /// Whether a complete received frame is waiting in the ring (see
    /// [`DmaEngine::rx_available`]).
    pub fn rx_available(&self) -> (r: bool)
        requires
            self.wf(),
        ensures
            r == self.dma().rx_frame_ready(),
    {
        self.dma.rx_available()
    }

    /// Whether the TX ring has room for a frame of `len` bytes.
    pub fn can_transmit(&self, len: usize) -> (r: bool)
        requires
            self.wf(),
        ensures
            r == self.dma().spec_can_transmit(len as int),
    {
        self.dma.can_transmit(len)
    }

    /// Whether at least one TX descriptor is available for the next frame.
    pub fn tx_ready(&self) -> (r: bool)
        requires
            self.wf(),
        ensures
            r == (self.dma().spec_tx_available() > 0),
    {
        self.dma.tx_available() > 0
    }
}

impl<const RX: usize, const TX: usize, const BUF: usize> Default for Emac<RX, TX, BUF> {
    /// An uninitialized driver with the APLL clock driven out of GPIO17
    /// and the default SMI pins.
    fn default() -> (r: Self)
        ensures
            DmaEngine::<RX, TX, BUF>::params_ok() ==> r.wf(),
            r.spec_state() == EmacState::Uninitialized,
            r.spec_config().clock == (RmiiClockConfig::InternalApll { gpio: ClkGpio::Gpio17 }),
            r.spec_config().pins.mdc == 23,
            r.spec_config().pins.mdio == 18,
            r.spec_mac() == seq![0u8, 0, 0, 0, 0, 0],
            !r.spec_bring_up_queued(),
            r.spec_link() == (None::<Speed>, None::<Duplex>),
            r.pending_ops() == Seq::<HwOp>::empty(),
    {
        Self::new(
            EmacConfig {
                clock: RmiiClockConfig::InternalApll { gpio: ClkGpio::Gpio17 },
                pins: RmiiPins::default(),
            },
        )
    }
}

/// RX descriptor count of [`EmacDefault`].
pub const DEFAULT_RX: usize = 10;

/// TX descriptor count of [`EmacDefault`].
pub const DEFAULT_TX: usize = 10;

/// Buffer size of [`EmacDefault`].
pub const DEFAULT_BUF: usize = 1600;

/// Convenience alias: 10 RX / 10 TX / 1600-byte buffers.
pub type EmacDefault = Emac<DEFAULT_RX, DEFAULT_TX, DEFAULT_BUF>;

/// Convenience alias: 4 RX / 4 TX / 1600-byte buffers.
pub type EmacSmall = Emac<4, 4, 1600>;

} // verus!
