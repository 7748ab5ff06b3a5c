use esp_emac::dma::DmaEngine;
use esp_emac::emac::{
    stop_outcome, DMA_RX_POLL_REG, DMA_TX_POLL_REG, MAC_ADDR_HIGH_REG, MAC_ADDR_LOW_REG, MAC_CONFIG_REG,
    MAC_DEFAULT_CONFIG,
};
use esp_emac::hw::HwOp;
use esp_emac::regs::mac::config;
use esp_emac::{
    ClkGpio, Duplex, Emac, EmacConfig, EmacDefault, EmacError, EmacSmall, EmacState,
    RmiiClockConfig, RmiiPins, Speed,
};

#[test]
fn new_is_uninitialized() {
    let emac = EmacDefault::default();
    assert_eq!(emac.state(), EmacState::Uninitialized);
    assert_eq!(emac.mac_address(), [0u8; 6]);
}

#[test]
fn set_mac_before_init_only_caches() {
    let mut emac = EmacDefault::default();
    let mac = [0x11, 0x22, 0x33, 0x44, 0x55, 0x66];
    emac.set_mac_address(mac);
    assert_eq!(emac.mac_address(), mac);
    // No register writes because the driver is uninitialized.
    assert!(emac.take_hw_ops().is_empty());
}

#[test]
fn memory_usage_matches_dma() {
    assert_eq!(EmacDefault::memory_usage(), DmaEngine::<10, 10, 1600>::memory_usage());
}

// ── Lifecycle ─────────────────────────────────────────────

/// Bring a driver up to `Running`, discarding the register programs.
fn running(emac: &mut EmacSmall) {
    emac.init().unwrap();
    emac.finish_init(true).unwrap();
    emac.start().unwrap();
    let _ = emac.take_hw_ops();
}

#[test]
fn default_config_is_gpio17_apll() {
    let emac = EmacDefault::default();
    assert_eq!(emac.config().clock, RmiiClockConfig::InternalApll { gpio: ClkGpio::Gpio17 });
    assert_eq!(emac.config().pins, RmiiPins { mdc: 23, mdio: 18 });
}

#[test]
fn init_rejects_mismatched_clock_pad() {
    let mut apll_on_input: EmacSmall = Emac::new(EmacConfig {
        clock: RmiiClockConfig::InternalApll { gpio: ClkGpio::Gpio0 },
        pins: RmiiPins::default(),
    });
    assert_eq!(apll_on_input.init(), Err(EmacError::InvalidConfig));
    assert!(apll_on_input.take_hw_ops().is_empty());

    let mut external_on_output: EmacSmall = Emac::new(EmacConfig {
        clock: RmiiClockConfig::External { gpio: ClkGpio::Gpio16 },
        pins: RmiiPins::default(),
    });
    assert_eq!(external_on_output.init(), Err(EmacError::InvalidConfig));
    assert_eq!(external_on_output.state(), EmacState::Uninitialized);
}

#[test]
fn init_queues_bring_up_program() {
    let mut emac = EmacSmall::default();
    assert_eq!(emac.init(), Ok(()));
    let ops = emac.take_hw_ops();
    // APLL (11) + clock pad (3) + SMI pins (7) + RMII pads (6) + DPORT +
    // PHY mode + clock select (2) + extension clocks + RAM power.
    assert_eq!(ops.len(), 11 + 3 + 7 + 6 + 6);
    // MDC on GPIO23 through the matrix, MDIO on GPIO18 both ways.
    assert_eq!(ops[14], HwOp::Modify { addr: 0x3FF4_908C, clear: 0x7C00, set: 0x2800 });
    assert_eq!(ops[15], HwOp::Write { addr: 0x3FF4_4530 + 4 * 23, value: 200 });
    assert_eq!(ops[16], HwOp::Write { addr: 0x3FF4_4024, value: 1 << 23 });
    assert_eq!(ops[17], HwOp::Modify { addr: 0x3FF4_9070, clear: 0x7C00, set: 0x2A00 });
    assert_eq!(ops[19], HwOp::Write { addr: 0x3FF4_4130 + 4 * 201, value: 18 | 0x80 });
    // RMII pads: TXD0 (GPIO19) out, RXD0 (GPIO25) in, on function 5.
    assert_eq!(ops[21], HwOp::Modify { addr: 0x3FF4_9074, clear: 0x7C00, set: 0x5800 });
    assert_eq!(ops[24], HwOp::Modify { addr: 0x3FF4_9024, clear: 0x7C00, set: 0x5A00 });
    assert_eq!(ops[27], HwOp::Modify { addr: 0x3FF0_00CC, clear: 0, set: 0x4000 });
    assert_eq!(ops[28], HwOp::Modify { addr: 0x3FF6_980C, clear: 0xE000, set: 0x8000 });
    // Still uninitialized until the DMA reset is done.
    assert_eq!(emac.state(), EmacState::Uninitialized);
}

#[test]
fn init_external_clock_routes_gpio0_input() {
    let mut emac: EmacSmall = Emac::new(EmacConfig {
        clock: RmiiClockConfig::External { gpio: ClkGpio::Gpio0 },
        pins: RmiiPins { mdc: 4, mdio: 5 },
    });
    assert_eq!(emac.init(), Ok(()));
    let ops = emac.take_hw_ops();
    // Clock pad (2) + GPIO0 input + SMI (7) + RMII (6) + 6.
    assert_eq!(ops.len(), 2 + 1 + 7 + 6 + 6);
    assert_eq!(ops[2], HwOp::Modify { addr: 0x3FF4_9044, clear: 0x7000, set: 0x5200 });
    // MDC on GPIO4 (IO_MUX offset 0x48).
    assert_eq!(ops[3], HwOp::Modify { addr: 0x3FF4_9048, clear: 0x7C00, set: 0x2800 });
    // External clock: CLK_SEL set, EXT_EN on, INT_EN off.
    assert_eq!(ops[18], HwOp::Modify { addr: 0x3FF6_9804, clear: 0, set: 1 << 24 });
    assert_eq!(ops[19], HwOp::Modify { addr: 0x3FF6_9808, clear: 2, set: 1 });
}

#[test]
fn init_twice_is_refused() {
    let mut emac = EmacSmall::default();
    emac.init().unwrap();
    emac.finish_init(true).unwrap();
    let _ = emac.take_hw_ops();
    assert_eq!(emac.init(), Err(EmacError::AlreadyInitialized));
    assert_eq!(emac.finish_init(true), Err(EmacError::AlreadyInitialized));
    assert!(emac.take_hw_ops().is_empty());
}

#[test]
fn finish_init_without_init_is_refused() {
    let mut emac = EmacSmall::default();
    assert_eq!(emac.finish_init(true), Err(EmacError::NotInitialized));
    assert_eq!(emac.state(), EmacState::Uninitialized);
}

#[test]
fn reset_timeout_leaves_driver_uninitialized() {
    let mut emac = EmacSmall::default();
    emac.init().unwrap();
    let _ = emac.take_hw_ops();
    assert_eq!(emac.finish_init(false), Err(EmacError::DmaResetTimeout));
    assert_eq!(emac.state(), EmacState::Uninitialized);
    assert!(emac.take_hw_ops().is_empty());
    // The bring-up has to be queued again.
    assert_eq!(emac.finish_init(true), Err(EmacError::NotInitialized));
    emac.init().unwrap();
    assert_eq!(emac.finish_init(true), Ok(()));
    assert_eq!(emac.state(), EmacState::Initialized);
}

#[test]
fn finish_init_programs_mac_and_rings() {
    let mut emac = EmacSmall::default();
    emac.set_mac_address([0x02, 0x00, 0x00, 0x12, 0x34, 0x56]);
    emac.init().unwrap();
    let _ = emac.take_hw_ops();
    emac.finish_init(true).unwrap();
    let ops = emac.take_hw_ops();
    assert_eq!(ops.len(), 12);
    assert_eq!(ops[0], HwOp::Write { addr: MAC_CONFIG_REG, value: MAC_DEFAULT_CONFIG });
    assert_eq!(MAC_DEFAULT_CONFIG, 0x00C0_CC80);
    assert_eq!(ops[1], HwOp::Write { addr: 0x3FF6_A004, value: 0x10 });
    // Bus mode: fixed burst, AAL, USP, ATDS, PBL 32.
    assert_eq!(ops[4], HwOp::Write { addr: 0x3FF6_9000, value: 0x0281_2080 });
    assert_eq!(ops[5], HwOp::Write { addr: 0x3FF6_9018, value: 0x0220_0000 });
    // Address filter: high word with AE first, low word last.
    assert_eq!(ops[10], HwOp::Write { addr: MAC_ADDR_HIGH_REG, value: 0x8000_5634 });
    assert_eq!(ops[11], HwOp::Write { addr: MAC_ADDR_LOW_REG, value: 0x1200_0002 });
    // The ring bases are where the chains loop back to.
    match (ops[8], ops[9]) {
        (
            HwOp::Write { addr: 0x3FF6_900C, value: rx },
            HwOp::Write { addr: 0x3FF6_9010, value: tx },
        ) => {
            assert_ne!(rx, 0);
            assert_ne!(tx, 0);
            assert_ne!(rx, tx);
        }
        other => panic!("unexpected ring programming {:?}", other),
    }
    assert_eq!(emac.state(), EmacState::Initialized);
}

#[test]
fn start_and_stop_transitions() {
    let mut emac = EmacSmall::default();
    assert_eq!(emac.start(), Err(EmacError::NotInitialized));
    assert_eq!(emac.stop(), Err(EmacError::NotInitialized));
    emac.init().unwrap();
    emac.finish_init(true).unwrap();
    let _ = emac.take_hw_ops();

    // Stopping a stopped driver does nothing.
    assert_eq!(emac.stop(), Ok(()));
    assert_eq!(emac.state(), EmacState::Initialized);
    assert!(emac.take_hw_ops().is_empty());
    assert_eq!(emac.start(), Ok(()));
    assert_eq!(emac.state(), EmacState::Running);
    let ops = emac.take_hw_ops();
    assert_eq!(ops.len(), 7);
    assert_eq!(ops[6], HwOp::Write { addr: DMA_RX_POLL_REG, value: 1 });

    // Starting again changes nothing.
    assert_eq!(emac.start(), Ok(()));
    assert!(emac.take_hw_ops().is_empty());

    assert_eq!(emac.stop(), Ok(()));
    assert_eq!(emac.state(), EmacState::Initialized);
    let ops = emac.take_hw_ops();
    assert_eq!(ops.len(), 6);
    assert_eq!(
        ops[3],
        HwOp::Modify { addr: MAC_CONFIG_REG, clear: config::TX_ENABLE | config::RX_ENABLE, set: 0 }
    );
    assert_eq!(emac.start(), Ok(()));
    assert_eq!(emac.state(), EmacState::Running);
}

#[test]
fn speed_and_duplex_after_init() {
    let mut emac = EmacSmall::default();
    emac.set_speed(Speed::Mbps10);
    emac.set_duplex(Duplex::Half);
    assert!(emac.take_hw_ops().is_empty());

    emac.init().unwrap();
    emac.finish_init(true).unwrap();
    let _ = emac.take_hw_ops();
    emac.set_speed(Speed::Mbps10);
    emac.set_duplex(Duplex::Full);
    emac.set_speed(Speed::Mbps100);
    emac.set_duplex(Duplex::Half);
    assert_eq!(
        emac.take_hw_ops(),
        vec![
            HwOp::Modify { addr: MAC_CONFIG_REG, clear: config::SPEED_100, set: 0 },
            HwOp::Modify { addr: MAC_CONFIG_REG, clear: 0, set: config::DUPLEX_FULL },
            HwOp::Modify { addr: MAC_CONFIG_REG, clear: 0, set: config::SPEED_100 },
            HwOp::Modify { addr: MAC_CONFIG_REG, clear: config::DUPLEX_FULL, set: 0 },
        ]
    );
}

#[test]
fn set_mac_after_init_reprograms_filter() {
    let mut emac = EmacSmall::default();
    emac.init().unwrap();
    emac.finish_init(true).unwrap();
    let _ = emac.take_hw_ops();
    emac.set_mac_address([1, 2, 3, 4, 5, 6]);
    assert_eq!(emac.mac_address(), [1, 2, 3, 4, 5, 6]);
    assert_eq!(
        emac.take_hw_ops(),
        vec![
            HwOp::Write { addr: MAC_ADDR_HIGH_REG, value: 0x8000_0605 },
            HwOp::Write { addr: MAC_ADDR_LOW_REG, value: 0x0403_0201 },
        ]
    );
}

// ── Frame I/O ─────────────────────────────────────────────

#[test]
fn transmit_needs_running_driver() {
    let mut emac = EmacSmall::default();
    assert_eq!(emac.transmit(&[1, 2, 3]), Err(EmacError::NotInitialized));
    let mut buf = [0u8; 64];
    assert_eq!(emac.receive(&mut buf), Err(EmacError::NotInitialized));
}

#[test]
fn transmit_kicks_tx_dma() {
    let mut emac = EmacSmall::default();
    running(&mut emac);
    assert!(emac.tx_ready());
    assert!(emac.can_transmit(1514));
    assert_eq!(emac.transmit(&[0x42; 60]), Ok(60));
    assert_eq!(emac.take_hw_ops(), vec![HwOp::Write { addr: DMA_TX_POLL_REG, value: 1 }]);
    // A refused frame queues nothing.
    assert_eq!(emac.transmit(&[]), Err(EmacError::InvalidLength));
    assert!(emac.take_hw_ops().is_empty());
}

#[test]
fn transmit_until_ring_full() {
    let mut emac = EmacSmall::default();
    running(&mut emac);
    for _ in 0..4 {
        assert_eq!(emac.transmit(&[0x42; 100]), Ok(100));
    }
    assert!(!emac.tx_ready());
    assert_eq!(emac.transmit(&[0x42; 100]), Err(EmacError::NoDescriptorsAvailable));
}

#[test]
fn receive_without_frame() {
    let mut emac = EmacSmall::default();
    running(&mut emac);
    assert!(!emac.rx_available());
    let mut buf = [0u8; 1600];
    assert!(emac.receive_fits(buf.len()));
    assert_eq!(emac.receive(&mut buf), Ok(None));
    assert!(emac.take_hw_ops().is_empty());
}

#[test]
fn state_debug_and_equality() {
    assert_ne!(EmacState::Initialized, EmacState::Running);
    assert!(format!("{:?}", EmacState::Running).contains("Running"));
    assert_eq!(Speed::Mbps100, Speed::Mbps100);
    assert_ne!(Duplex::Half, Duplex::Full);
}

#[test]
fn speed_and_duplex_repeat_is_free() {
    let mut emac = EmacSmall::default();
    emac.init().unwrap();
    emac.finish_init(true).unwrap();
    let _ = emac.take_hw_ops();
    emac.set_speed(Speed::Mbps100);
    emac.set_duplex(Duplex::Full);
    assert_eq!(emac.take_hw_ops().len(), 2);
    // A steady link reports the same values again: no register write.
    emac.set_speed(Speed::Mbps100);
    emac.set_duplex(Duplex::Full);
    assert!(emac.take_hw_ops().is_empty());
    // A change is written.
    emac.set_speed(Speed::Mbps10);
    assert_eq!(
        emac.take_hw_ops(),
        vec![HwOp::Modify { addr: MAC_CONFIG_REG, clear: config::SPEED_100, set: 0 }]
    );
}

#[test]
fn stop_outcome_reports_flush_timeout() {
    assert_eq!(stop_outcome(true), Ok(()));
    assert_eq!(stop_outcome(false), Err(EmacError::TxFlushTimeout));
}

#[test]
fn stop_before_init_is_refused() {
    let mut emac = EmacSmall::default();
    assert_eq!(emac.stop(), Err(EmacError::NotInitialized));
    assert_eq!(emac.state(), EmacState::Uninitialized);
}

#[test]
fn init_rejects_smi_pin_without_pad() {
    let mut emac: EmacSmall = Emac::new(EmacConfig {
        clock: RmiiClockConfig::InternalApll { gpio: ClkGpio::Gpio17 },
        pins: RmiiPins { mdc: 28, mdio: 18 },
    });
    assert_eq!(emac.init(), Err(EmacError::InvalidConfig));
    assert!(emac.take_hw_ops().is_empty());
    assert_eq!(emac.finish_init(true), Err(EmacError::NotInitialized));
}
