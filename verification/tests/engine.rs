use esp_emac::dma::bits::rdes0;
use esp_emac::dma::DmaEngine;
use esp_emac::EmacError;

#[test]
fn new_not_initialized() {
    let engine: DmaEngine<4, 4, 256> = DmaEngine::new();
    assert!(!engine.is_initialized());
}

#[test]
fn init_sets_initialized() {
    let mut engine: DmaEngine<4, 4, 256> = DmaEngine::new();
    let _ = engine.init();
    assert!(engine.is_initialized());
}

#[test]
fn init_returns_base_addresses() {
    let mut engine: DmaEngine<4, 4, 256> = DmaEngine::new();
    let (rx_base, tx_base) = engine.init();
    assert_ne!(rx_base, 0);
    assert_ne!(tx_base, 0);
    assert_ne!(rx_base, tx_base);
}

#[test]
fn init_chains_rx_descriptors() {
    let mut engine: DmaEngine<4, 4, 256> = DmaEngine::new();
    let (rx_base, _) = engine.init();

    for i in 0..4 {
        let desc = engine.rx_descriptor(i);
        assert!(desc.is_owned(), "RX desc {} should be DMA-owned", i);
        assert_ne!(desc.buffer_addr(), 0, "RX desc {} buffer must be set", i);
        assert_ne!(desc.next_desc_addr(), 0, "RX desc {} chain must be set", i);
    }

    assert_eq!(engine.rx_descriptor(3).next_desc_addr(), rx_base);
}

#[test]
fn init_chains_tx_descriptors() {
    let mut engine: DmaEngine<4, 4, 256> = DmaEngine::new();
    let (_, tx_base) = engine.init();

    for i in 0..4 {
        let desc = engine.tx_descriptor(i);
        assert!(!desc.is_owned(), "TX desc {} should be CPU-owned", i);
        assert_ne!(desc.buffer_addr(), 0, "TX desc {} buffer must be set", i);
        assert_ne!(desc.next_desc_addr(), 0, "TX desc {} chain must be set", i);
    }

    assert_eq!(engine.tx_descriptor(3).next_desc_addr(), tx_base);
}

#[test]
fn memory_usage_calculation() {
    let usage = DmaEngine::<4, 4, 256>::memory_usage();
    assert_eq!(usage, 2304);
}

#[test]
fn memory_usage_scales() {
    let small = DmaEngine::<2, 2, 512>::memory_usage();
    let large = DmaEngine::<10, 10, 1600>::memory_usage();
    assert!(large > small);
}

#[test]
fn tx_available_after_init() {
    let mut engine: DmaEngine<4, 4, 256> = DmaEngine::new();
    let _ = engine.init();
    assert_eq!(engine.tx_available(), 4);
}

#[test]
fn can_transmit_empty() {
    let mut engine: DmaEngine<4, 4, 256> = DmaEngine::new();
    let _ = engine.init();
    assert!(!engine.can_transmit(0));
}

#[test]
fn can_transmit_single_buffer() {
    let mut engine: DmaEngine<4, 4, 256> = DmaEngine::new();
    let _ = engine.init();
    assert!(engine.can_transmit(100));
    assert!(engine.can_transmit(256));
}

#[test]
fn can_transmit_too_large() {
    let mut engine: DmaEngine<4, 4, 256> = DmaEngine::new();
    let _ = engine.init();
    assert!(!engine.can_transmit(1025));
}

#[test]
fn can_transmit_multi_buffer() {
    let mut engine: DmaEngine<4, 4, 256> = DmaEngine::new();
    let _ = engine.init();
    assert!(engine.can_transmit(512));
    assert!(engine.can_transmit(1024));
}

#[test]
fn transmit_single_frame() {
    let mut engine: DmaEngine<4, 4, 256> = DmaEngine::new();
    let _ = engine.init();
    let data = [0xABu8; 100];
    let result = engine.transmit(&data);
    assert_eq!(result, Ok(100));
}

#[test]
fn transmit_sets_own_bit() {
    let mut engine: DmaEngine<4, 4, 256> = DmaEngine::new();
    let _ = engine.init();
    let data = [0xABu8; 100];
    let _ = engine.transmit(&data);
    assert!(engine.tx_descriptor(0).is_owned());
    assert_eq!(engine.tx_current_index(), 1);
}

#[test]
fn transmit_copies_data_to_buffer() {
    let mut engine: DmaEngine<4, 4, 256> = DmaEngine::new();
    let _ = engine.init();
    let data = [0xCA; 64];
    let _ = engine.transmit(&data);
    assert_eq!(&engine.tx_buffer(0)[..64], &data[..]);
}

#[test]
fn transmit_scatter_gather() {
    let mut engine: DmaEngine<4, 4, 256> = DmaEngine::new();
    let _ = engine.init();
    let data = [0xBBu8; 400];
    let result = engine.transmit(&data);
    assert_eq!(result, Ok(400));
    assert!(engine.tx_descriptor(0).is_owned());
    assert!(engine.tx_descriptor(1).is_owned());
    assert_eq!(engine.tx_current_index(), 2);
}

#[test]
fn transmit_when_full() {
    let mut engine: DmaEngine<2, 2, 256> = DmaEngine::new();
    let _ = engine.init();
    let data = [0xAAu8; 100];
    assert!(engine.transmit(&data).is_ok());
    assert!(engine.transmit(&data).is_ok());
    let result = engine.transmit(&data);
    assert_eq!(result, Err(EmacError::NoDescriptorsAvailable));
}

#[test]
fn transmit_empty_data_returns_error() {
    let mut engine: DmaEngine<4, 4, 256> = DmaEngine::new();
    let _ = engine.init();
    let result = engine.transmit(&[]);
    assert_eq!(result, Err(EmacError::InvalidLength));
}

#[test]
fn transmit_too_large_returns_error() {
    let mut engine: DmaEngine<4, 4, 256> = DmaEngine::new();
    let _ = engine.init();
    let data = [0u8; 2048];
    let result = engine.transmit(&data);
    assert_eq!(result, Err(EmacError::FrameTooLarge));
}

#[test]
fn tx_reclaim_returns_completed() {
    let mut engine: DmaEngine<4, 4, 256> = DmaEngine::new();
    let _ = engine.init();
    let _ = engine.transmit(&[0xAA; 100]);
    assert!(engine.tx_descriptor(0).is_owned());
    engine.tx_descriptor_mut(0).clear_owned();
    let reclaimed = engine.tx_reclaim();
    assert_eq!(reclaimed, 4);
}

#[test]
fn rx_available_no_frame() {
    let mut engine: DmaEngine<4, 4, 256> = DmaEngine::new();
    let _ = engine.init();
    assert!(!engine.rx_available());
}

#[test]
fn receive_no_frame_returns_none() {
    let mut engine: DmaEngine<4, 4, 256> = DmaEngine::new();
    let _ = engine.init();
    let mut buf = [0u8; 256];
    let result = engine.receive(&mut buf);
    assert_eq!(result, Ok(None));
}

/// Simulate the DMA completing a single-descriptor frame at
/// `desc_index`: payload in the buffer, first+last, frame length with
/// the 4-byte CRC, CPU-owned.
fn simulate_rx_frame(engine: &mut DmaEngine<4, 4, 256>, desc_index: usize, data: &[u8]) {
    engine.rx_buffer_mut(desc_index)[..data.len()].copy_from_slice(data);
    let frame_len_with_crc = (data.len() + 4) as u32;
    let rdes0_val =
        rdes0::FIRST_DESC | rdes0::LAST_DESC | (frame_len_with_crc << rdes0::FRAME_LEN_SHIFT);
    engine.rx_descriptor_mut(desc_index).set_raw_rdes0(rdes0_val);
}

#[test]
fn receive_simulated_frame() {
    let mut engine: DmaEngine<4, 4, 256> = DmaEngine::new();
    let _ = engine.init();
    let payload = [0xDE; 64];
    simulate_rx_frame(&mut engine, 0, &payload);
    let mut buf = [0u8; 256];
    let result = engine.receive(&mut buf);
    assert_eq!(result, Ok(Some(64)));
    assert_eq!(&buf[..64], &payload[..]);
}

#[test]
fn receive_advances_ring() {
    let mut engine: DmaEngine<4, 4, 256> = DmaEngine::new();
    let _ = engine.init();
    simulate_rx_frame(&mut engine, 0, &[0xAA; 32]);
    assert_eq!(engine.rx_current_index(), 0);
    let mut buf = [0u8; 256];
    let _ = engine.receive(&mut buf);
    assert_eq!(engine.rx_current_index(), 1);
}

#[test]
fn receive_recycles_descriptor() {
    let mut engine: DmaEngine<4, 4, 256> = DmaEngine::new();
    let _ = engine.init();
    simulate_rx_frame(&mut engine, 0, &[0xAA; 32]);
    let mut buf = [0u8; 256];
    let _ = engine.receive(&mut buf);
    assert!(engine.rx_descriptor(0).is_owned());
}

#[test]
fn peek_frame_length_returns_size() {
    let mut engine: DmaEngine<4, 4, 256> = DmaEngine::new();
    let _ = engine.init();
    simulate_rx_frame(&mut engine, 0, &[0xBB; 100]);
    let len = engine.peek_frame_length();
    assert_eq!(len, Some(100));
    assert!(engine.rx_available());
}

#[test]
fn peek_frame_length_none_when_empty() {
    let mut engine: DmaEngine<4, 4, 256> = DmaEngine::new();
    let _ = engine.init();
    assert_eq!(engine.peek_frame_length(), None);
}

#[test]
fn rx_free_count_after_init() {
    let mut engine: DmaEngine<4, 4, 256> = DmaEngine::new();
    let _ = engine.init();
    assert_eq!(engine.rx_free_count(), 4);
}

#[test]
fn rx_free_count_after_receive() {
    let mut engine: DmaEngine<4, 4, 256> = DmaEngine::new();
    let _ = engine.init();
    simulate_rx_frame(&mut engine, 0, &[0xCC; 48]);
    assert_eq!(engine.rx_free_count(), 3);
    let mut buf = [0u8; 256];
    let _ = engine.receive(&mut buf);
    assert_eq!(engine.rx_free_count(), 4);
}

#[test]
fn receive_buffer_too_small() {
    let mut engine: DmaEngine<4, 4, 256> = DmaEngine::new();
    let _ = engine.init();
    simulate_rx_frame(&mut engine, 0, &[0xDD; 200]);
    let mut buf = [0u8; 32];
    let result = engine.receive(&mut buf);
    assert_eq!(result, Err(EmacError::BufferTooSmall));
    assert!(engine.rx_descriptor(0).is_owned());
}

#[test]
fn reset_reinitializes() {
    let mut engine: DmaEngine<4, 4, 256> = DmaEngine::new();
    let _ = engine.init();
    let _ = engine.transmit(&[0xAA; 100]);
    assert_eq!(engine.tx_current_index(), 1);
    let (rx_base, tx_base) = engine.reset();
    assert_ne!(rx_base, 0);
    assert_ne!(tx_base, 0);
    assert_eq!(engine.rx_current_index(), 0);
    assert_eq!(engine.tx_current_index(), 0);
    assert_eq!(engine.tx_available(), 4);
    assert_eq!(engine.rx_free_count(), 4);
}

#[test]
fn default_trait() {
    let d1: DmaEngine<4, 4, 256> = DmaEngine::new();
    let d2: DmaEngine<4, 4, 256> = DmaEngine::default();
    assert_eq!(d1.is_initialized(), d2.is_initialized());
}

// ── Further cases ────────────────────────────────────────

#[test]
fn transmit_uses_exactly_the_chunks_it_needs() {
    let mut engine: DmaEngine<4, 4, 256> = DmaEngine::new();
    let _ = engine.init();
    // 513 bytes span three 256-byte buffers.
    assert_eq!(engine.transmit(&[0x11; 513]), Ok(513));
    assert_eq!(engine.tx_available(), 1);
    assert_eq!(engine.tx_current_index(), 3);
    // The last chunk holds the single remaining byte.
    assert_eq!(engine.tx_buffer(2)[0], 0x11);
    // A frame needing two descriptors no longer fits.
    assert!(!engine.can_transmit(300));
    assert_eq!(engine.transmit(&[0x22; 300]), Err(EmacError::NoDescriptorsAvailable));
    // A refused frame leaves the ring as it was.
    assert_eq!(engine.tx_available(), 1);
    assert_eq!(engine.tx_current_index(), 3);
}

#[test]
fn receive_multi_descriptor_frame() {
    let mut engine: DmaEngine<4, 4, 256> = DmaEngine::new();
    let _ = engine.init();
    // A 300-byte payload over two descriptors: 256 + 44 bytes.
    engine.rx_buffer_mut(0).copy_from_slice(&[0x5A; 256]);
    engine.rx_buffer_mut(1)[..44].copy_from_slice(&[0xA5; 44]);
    engine.rx_descriptor_mut(0).set_raw_rdes0(rdes0::FIRST_DESC);
    engine
        .rx_descriptor_mut(1)
        .set_raw_rdes0(rdes0::LAST_DESC | (304 << rdes0::FRAME_LEN_SHIFT));
    assert_eq!(engine.peek_frame_length(), Some(300));
    assert!(engine.receive_fits(1600));
    let mut buf = [0u8; 1600];
    assert_eq!(engine.receive(&mut buf), Ok(Some(300)));
    assert_eq!(&buf[..256], &[0x5A; 256][..]);
    assert_eq!(&buf[256..300], &[0xA5; 44][..]);
    assert_eq!(buf[300], 0);
    assert_eq!(engine.rx_current_index(), 2);
    assert_eq!(engine.rx_free_count(), 4);
}

#[test]
fn receive_errored_frame_is_dropped() {
    let mut engine: DmaEngine<4, 4, 256> = DmaEngine::new();
    let _ = engine.init();
    engine.rx_descriptor_mut(0).set_raw_rdes0(
        rdes0::FIRST_DESC | rdes0::LAST_DESC | rdes0::ERR_SUMMARY | (68 << rdes0::FRAME_LEN_SHIFT),
    );
    let mut buf = [0u8; 256];
    assert_eq!(engine.receive(&mut buf), Err(EmacError::FrameError));
    assert!(engine.rx_descriptor(0).is_owned());
    assert_eq!(engine.rx_current_index(), 1);
    assert_eq!(buf, [0u8; 256]);
}

#[test]
fn receive_middle_segment_is_flushed() {
    let mut engine: DmaEngine<4, 4, 256> = DmaEngine::new();
    let _ = engine.init();
    // A frame tail without its first segment: handed back, nothing
    // delivered.
    engine
        .rx_descriptor_mut(0)
        .set_raw_rdes0(rdes0::LAST_DESC | (100 << rdes0::FRAME_LEN_SHIFT));
    let mut buf = [0u8; 256];
    assert_eq!(engine.receive(&mut buf), Ok(None));
    assert!(engine.rx_descriptor(0).is_owned());
    assert_eq!(engine.rx_current_index(), 1);
}

#[test]
fn receive_incomplete_multi_descriptor_frame_waits() {
    let mut engine: DmaEngine<4, 4, 256> = DmaEngine::new();
    let _ = engine.init();
    // First segment done, the DMA still owns the next one.
    engine.rx_descriptor_mut(0).set_raw_rdes0(rdes0::FIRST_DESC);
    let mut buf = [0u8; 1024];
    assert_eq!(engine.receive(&mut buf), Ok(None));
    assert_eq!(engine.rx_current_index(), 0);
    assert!(!engine.rx_descriptor(0).is_owned());
}

#[test]
fn memory_usage_default_sizes() {
    // 10 * 32 + 10 * 32 + 10 * 1600 + 10 * 1600
    assert_eq!(DmaEngine::<10, 10, 1600>::memory_usage(), 32_640);
}

#[test]
fn rx_available_on_complete_two_descriptor_frame() {
    let mut engine: DmaEngine<4, 4, 256> = DmaEngine::new();
    let _ = engine.init();
    engine.rx_descriptor_mut(0).set_raw_rdes0(rdes0::FIRST_DESC);
    assert!(!engine.rx_available(), "the frame's last segment is still with the DMA");
    engine
        .rx_descriptor_mut(1)
        .set_raw_rdes0(rdes0::LAST_DESC | (304 << rdes0::FRAME_LEN_SHIFT));
    assert!(engine.rx_available());
    assert_eq!(engine.peek_frame_length(), Some(300));
    assert_eq!(engine.rx_current_index(), 0);
}
