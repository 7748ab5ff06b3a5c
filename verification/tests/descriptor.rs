use esp_emac::dma::bits::{rdes0, rdes1, tdes0, tdes1};
use esp_emac::dma::{RxDescriptor, TxDescriptor, VolatileCell};

/// Address of a value, as the 32-bit DMA address field holds it.
fn addr32<T>(value: &T) -> u32 {
    let printed = format!("{:p}", value);
    usize::from_str_radix(printed.trim_start_matches("0x"), 16).unwrap() as u32
}

#[test]
fn volatile_cell_new() {
    let cell = VolatileCell::new(42u32);
    assert_eq!(cell.get(), 42);
}

#[test]
fn volatile_cell_get_set() {
    let mut cell = VolatileCell::new(0u32);
    assert_eq!(cell.get(), 0);
    cell.set(0xDEAD_BEEF);
    assert_eq!(cell.get(), 0xDEAD_BEEF);
}

#[test]
fn volatile_cell_update() {
    let mut cell = VolatileCell::new(0x0000_00FFu32);
    cell.update(|v| v | 0xFF00_0000);
    assert_eq!(cell.get(), 0xFF00_00FF);
}

#[test]
fn volatile_cell_default() {
    let cell = VolatileCell::<u32>::default();
    assert_eq!(cell.get(), 0);
}

#[test]
fn tx_descriptor_size() {
    assert_eq!(core::mem::size_of::<TxDescriptor>(), 32);
    assert_eq!(TxDescriptor::SIZE, core::mem::size_of::<TxDescriptor>());
}

#[test]
fn tx_descriptor_alignment() {
    assert_eq!(core::mem::align_of::<TxDescriptor>(), 4);
}

#[test]
fn tx_descriptor_new_not_owned() {
    let desc = TxDescriptor::new();
    assert!(!desc.is_owned());
}

#[test]
fn tx_descriptor_is_owned() {
    let mut desc = TxDescriptor::new();
    desc.set_owned();
    assert!(desc.is_owned());
    desc.clear_owned();
    assert!(!desc.is_owned());
}

#[test]
fn tdes0_own_bit() {
    let mut desc = TxDescriptor::new();
    desc.set_owned();
    assert_eq!(desc.raw_tdes0() & tdes0::OWN, tdes0::OWN);
    assert_eq!(tdes0::OWN, 1 << 31);
}

#[test]
fn tx_descriptor_setup_chained() {
    let mut desc = TxDescriptor::new();
    let buf = [0u8; 64];
    let next = TxDescriptor::new();

    desc.setup_chained(addr32(&buf), addr32(&next));

    assert_eq!(desc.buffer_addr(), addr32(&buf));
    assert_eq!(desc.next_desc_addr(), addr32(&next));
    assert!(desc.raw_tdes0() & tdes0::SECOND_ADDR_CHAINED != 0);
    assert!(!desc.is_owned());
}

#[test]
fn tx_descriptor_prepare_single_frame() {
    let mut desc = TxDescriptor::new();
    desc.prepare(1500, true, true);

    let raw0 = desc.raw_tdes0();
    assert!(raw0 & tdes0::FIRST_SEGMENT != 0);
    assert!(raw0 & tdes0::LAST_SEGMENT != 0);
    assert!(raw0 & tdes0::INTERRUPT_ON_COMPLETE != 0);
    assert!(raw0 & tdes0::OWN == 0, "prepare must not set OWN");

    let len = desc.raw_tdes1() & tdes1::BUFFER1_SIZE_MASK;
    assert_eq!(len, 1500);
}

#[test]
fn tdes0_first_last_bits() {
    let mut desc = TxDescriptor::new();

    desc.prepare(100, true, false);
    let raw = desc.raw_tdes0();
    assert!(raw & tdes0::FIRST_SEGMENT != 0);
    assert!(raw & tdes0::LAST_SEGMENT == 0);

    desc.prepare(100, false, true);
    let raw = desc.raw_tdes0();
    assert!(raw & tdes0::FIRST_SEGMENT == 0);
    assert!(raw & tdes0::LAST_SEGMENT != 0);
}

#[test]
fn tx_descriptor_prepare_sets_cic_full_offload() {
    let mut desc = TxDescriptor::new();
    desc.prepare(64, true, true);
    let raw = desc.raw_tdes0();
    let cic = (raw >> tdes0::CHECKSUM_INSERT_SHIFT) & 0x3;
    assert_eq!(cic, 0b11, "CIC must be 0b11 for full HW checksum offload");
}

#[test]
fn tx_descriptor_prepare_and_submit() {
    let mut desc = TxDescriptor::new();
    desc.prepare_and_submit(256, true, true);
    assert!(desc.is_owned());
    assert_eq!(desc.raw_tdes1() & tdes1::BUFFER1_SIZE_MASK, 256);
}

#[test]
fn tx_descriptor_no_errors_initially() {
    let desc = TxDescriptor::new();
    assert!(!desc.has_error());
    assert_eq!(desc.error_flags(), 0);
}

#[test]
fn tx_descriptor_reset_preserves_chain() {
    let mut desc = TxDescriptor::new();
    desc.setup_chained(0x3FFB_0000, 0x1234_5678);
    desc.prepare_and_submit(1000, true, true);

    desc.reset();

    assert!(!desc.is_owned());
    assert_eq!(desc.raw_tdes1() & tdes1::BUFFER1_SIZE_MASK, 0);
    assert_eq!(desc.next_desc_addr(), 0x1234_5678);
    assert!(desc.raw_tdes0() & tdes0::SECOND_ADDR_CHAINED != 0);
}

#[test]
fn rx_descriptor_size() {
    assert_eq!(core::mem::size_of::<RxDescriptor>(), 32);
    assert_eq!(RxDescriptor::SIZE, core::mem::size_of::<RxDescriptor>());
}

#[test]
fn rx_descriptor_alignment() {
    assert_eq!(core::mem::align_of::<RxDescriptor>(), 4);
}

#[test]
fn rx_descriptor_new_not_owned() {
    let desc = RxDescriptor::new();
    assert!(!desc.is_owned());
}

#[test]
fn rdes0_own_bit() {
    let mut desc = RxDescriptor::new();
    desc.set_owned();
    assert_eq!(desc.raw_rdes0() & rdes0::OWN, rdes0::OWN);
    assert_eq!(rdes0::OWN, 1 << 31);
}

#[test]
fn rx_descriptor_setup_chained() {
    let mut desc = RxDescriptor::new();
    let buf = [0u8; 1600];
    let next = RxDescriptor::new();

    desc.setup_chained(addr32(&buf), 1600, addr32(&next));

    assert_eq!(desc.buffer_addr(), addr32(&buf));
    assert_eq!(desc.next_desc_addr(), addr32(&next));
    assert_eq!(desc.buffer_size(), 1600);
    assert!(desc.is_owned(), "setup_chained gives to DMA");
    assert!(desc.raw_rdes1() & rdes1::SECOND_ADDR_CHAINED != 0);
}

#[test]
fn rx_descriptor_first_last_flags() {
    let mut desc = RxDescriptor::new();
    assert!(!desc.is_first());
    assert!(!desc.is_last());

    desc.set_raw_rdes0(rdes0::FIRST_DESC | rdes0::LAST_DESC);
    assert!(desc.is_first());
    assert!(desc.is_last());
    assert!(desc.is_complete_frame());
}

#[test]
fn rx_descriptor_payload_length() {
    let mut desc = RxDescriptor::new();
    desc.set_raw_rdes0(1504 << rdes0::FRAME_LEN_SHIFT);
    assert_eq!(desc.frame_length(), 1504);
    assert_eq!(desc.payload_length(), 1500);
}

#[test]
fn rx_descriptor_payload_length_short_frame() {
    let mut desc = RxDescriptor::new();
    desc.set_raw_rdes0(2 << rdes0::FRAME_LEN_SHIFT);
    assert_eq!(desc.payload_length(), 0);
}

#[test]
fn rx_descriptor_error_detection() {
    let mut desc = RxDescriptor::new();
    assert!(!desc.has_error());

    desc.set_raw_rdes0(rdes0::ERR_SUMMARY | rdes0::CRC_ERR | rdes0::OVERFLOW_ERR);
    assert!(desc.has_error());
    assert!(desc.error_flags() & rdes0::CRC_ERR != 0);
    assert!(desc.error_flags() & rdes0::OVERFLOW_ERR != 0);
}

#[test]
fn rx_descriptor_recycle() {
    let mut desc = RxDescriptor::new();
    desc.setup_chained(0x3FFB_0000, 1600, 0x3FFB_1000);
    desc.set_raw_rdes0(rdes0::FIRST_DESC | rdes0::LAST_DESC | (100 << rdes0::FRAME_LEN_SHIFT));

    desc.recycle();

    assert!(desc.is_owned());
    assert_eq!(desc.buffer_size(), 1600);
}

#[test]
fn rx_descriptor_error_needs_summary_bit() {
    // The error test reads the summary bit; the individual flags stay
    // visible through `error_flags`.
    let mut desc = RxDescriptor::new();
    desc.set_raw_rdes0(rdes0::CRC_ERR);
    assert!(!desc.has_error());
    assert_eq!(desc.error_flags(), rdes0::CRC_ERR);
}
