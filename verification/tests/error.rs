use esp_emac::reset::{
    reset_poll_limit, ResetError, ResetPoll, ResetStep, RESET_POLL_INTERVAL_US,
    SOFT_RESET_TIMEOUT_MS,
};
use esp_emac::EmacError;

#[test]
fn emac_error_debug() {
    let err = EmacError::Timeout;
    let dbg = format!("{:?}", err);
    assert!(dbg.contains("Timeout"));
}

#[test]
fn emac_error_equality() {
    assert_eq!(EmacError::Timeout, EmacError::Timeout);
    assert_ne!(EmacError::Timeout, EmacError::DmaError);
    assert_ne!(EmacError::InvalidConfig, EmacError::InvalidPhyAddress);
}

#[test]
fn emac_error_clone() {
    let err = EmacError::DmaError;
    let cloned = err;
    assert_eq!(err, cloned);
}

#[test]
fn reset_timeout_maps_to_dma_reset_timeout_not_mdio_timeout() {
    let mapped: EmacError = ResetError::Timeout.into();
    assert_eq!(mapped, EmacError::DmaResetTimeout);
    assert_ne!(mapped, EmacError::Timeout);
}

#[test]
fn reset_poll_limit_for_default_timeout() {
    assert_eq!(SOFT_RESET_TIMEOUT_MS, 100);
    assert_eq!(RESET_POLL_INTERVAL_US, 100);
    // 100 ms at one poll per 100 µs.
    assert_eq!(reset_poll_limit(SOFT_RESET_TIMEOUT_MS), 1000);
    assert_eq!(reset_poll_limit(0), 0);
}

#[test]
fn reset_poll_limit_saturates() {
    // 4_294_967_295 ms * 10 polls per ms does not fit in a u32.
    assert_eq!(reset_poll_limit(u32::MAX), u32::MAX);
    // 5_000 ms stays exact although 5_000 * 1000 would overflow nothing.
    assert_eq!(reset_poll_limit(5_000), 50_000);
    // Past 4.3 s the microsecond product exceeds u32 but the count fits.
    assert_eq!(reset_poll_limit(10_000), 100_000);
}

#[test]
fn reset_poll_budget() {
    let mut poll = ResetPoll::new(0);
    assert!(!poll.may_poll());
    // 1 ms allows ten reads, 100 µs apart.
    poll = ResetPoll::new(1);
    let mut reads = 0;
    while poll.may_poll() {
        assert_eq!(poll.observe(true), ResetStep::WaitUs(RESET_POLL_INTERVAL_US));
        reads += 1;
    }
    assert_eq!(reads, 10);
}

#[test]
fn reset_poll_stops_when_bit_clears() {
    let mut poll = ResetPoll::new(SOFT_RESET_TIMEOUT_MS);
    assert_eq!(poll.observe(true), ResetStep::WaitUs(100));
    assert_eq!(poll.observe(false), ResetStep::Done);
    assert!(poll.may_poll());
}

#[test]
fn tx_flush_timeout_is_its_own_error() {
    assert_ne!(EmacError::TxFlushTimeout, EmacError::Timeout);
    assert!(format!("{:?}", EmacError::TxFlushTimeout).contains("TxFlushTimeout"));
}
