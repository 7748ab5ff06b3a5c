use esp_emac::embassy_net::{
    rx_token_receive, tx_token_len, wake_targets, IrqCounters, MAX_FRAME_SIZE, MTU,
};
use esp_emac::regs::dma::status;
use esp_emac::{EmacSmall, InterruptStatus};

#[test]
fn frame_limits() {
    assert_eq!(MAX_FRAME_SIZE, 1600);
    assert_eq!(MTU, 1514);
}

#[test]
fn irq_counters_record_flags() {
    let mut c = IrqCounters::default();
    c.record(status::RI | status::NIS);
    c.record(status::TI | status::TU | status::ERI);
    c.record(status::FBI | status::AIS);
    assert_eq!(c.total, 3);
    assert_eq!(c.ri, 1);
    assert_eq!(c.ru, 0);
    assert_eq!(c.ti, 1);
    assert_eq!(c.tu, 1);
    assert_eq!(c.eri, 1);
    assert_eq!(c.err, 1);
    assert_eq!(c.last_dmastat, status::FBI | status::AIS);
}

#[test]
fn irq_counters_wrap() {
    let mut c = IrqCounters::default();
    c.total = u32::MAX;
    c.record(0);
    assert_eq!(c.total, 0);
    assert_eq!(c.last_dmastat, 0);
}

#[test]
fn wake_targets_follow_flags() {
    assert_eq!(wake_targets(&InterruptStatus::from_raw(status::RI)), (true, false));
    assert_eq!(wake_targets(&InterruptStatus::from_raw(status::RU)), (true, false));
    assert_eq!(wake_targets(&InterruptStatus::from_raw(status::TI)), (false, true));
    assert_eq!(wake_targets(&InterruptStatus::from_raw(status::TU)), (false, true));
    assert_eq!(wake_targets(&InterruptStatus::from_raw(status::UNF)), (true, true));
    assert_eq!(wake_targets(&InterruptStatus::from_raw(status::NIS)), (false, false));
}

#[test]
fn tx_token_len_caps_at_frame_size() {
    assert_eq!(tx_token_len(60), 60);
    assert_eq!(tx_token_len(1600), 1600);
    assert_eq!(tx_token_len(9000), 1600);
}

#[test]
fn rx_token_without_frame_is_empty() {
    let mut emac = EmacSmall::default();
    let mut buf = [0u8; MAX_FRAME_SIZE];
    // Not running: nothing received.
    assert_eq!(rx_token_receive(&mut emac, &mut buf), 0);
    emac.init().unwrap();
    emac.finish_init(true).unwrap();
    emac.start().unwrap();
    assert_eq!(rx_token_receive(&mut emac, &mut buf), 0);
}

#[test]
fn rx_token_hands_over_frame_bytes() {
    let mut emac = EmacSmall::default();
    emac.init().unwrap();
    emac.finish_init(true).unwrap();
    emac.start().unwrap();
    let _ = emac.take_hw_ops();
    // No test hook reaches the ring through `Emac`; with nothing
    // received the buffer stays untouched and nothing is queued.
    let mut buf = [0x5Au8; MAX_FRAME_SIZE];
    assert_eq!(rx_token_receive(&mut emac, &mut buf), 0);
    assert!(buf.iter().all(|&b| b == 0x5A));
    assert!(emac.take_hw_ops().is_empty());
}
