use esp_emac::dma::DescriptorRing;

#[test]
fn ring_len() {
    let ring = DescriptorRing::new([0u32; 8]);
    assert_eq!(ring.len(), 8);
    assert!(!ring.is_empty());
}

#[test]
fn ring_advance_wraps() {
    let mut ring = DescriptorRing::new([0u32; 4]);
    assert_eq!(ring.current_index(), 0);
    ring.advance();
    assert_eq!(ring.current_index(), 1);
    ring.advance();
    assert_eq!(ring.current_index(), 2);
    ring.advance();
    assert_eq!(ring.current_index(), 3);
    ring.advance();
    assert_eq!(ring.current_index(), 0);
}

#[test]
fn ring_current_changes_after_advance() {
    let mut ring = DescriptorRing::new([10u32, 20, 30]);
    assert_eq!(*ring.current(), 10);
    ring.advance();
    assert_eq!(*ring.current(), 20);
    ring.advance();
    assert_eq!(*ring.current(), 30);
}

#[test]
fn ring_reset() {
    let mut ring = DescriptorRing::new([0u32; 4]);
    ring.advance();
    ring.advance();
    assert_eq!(ring.current_index(), 2);
    ring.reset();
    assert_eq!(ring.current_index(), 0);
}

#[test]
fn ring_base_addr() {
    let ring = DescriptorRing::new([10u32, 20, 30]);
    let addr = ring.base_addr();
    assert_ne!(addr, 0);
    // The base address is the first descriptor's, which holds 10.
    let first = format!("{:p}", ring.get(0));
    assert_eq!(addr, usize::from_str_radix(first.trim_start_matches("0x"), 16).unwrap());
    assert_eq!(*ring.get(0), 10);
}

#[test]
fn ring_get_by_index() {
    let ring = DescriptorRing::new([10u32, 20, 30, 40]);
    assert_eq!(*ring.get(0), 10);
    assert_eq!(*ring.get(1), 20);
    assert_eq!(*ring.get(3), 40);
}

#[test]
fn ring_get_wraps() {
    let ring = DescriptorRing::new([10u32, 20, 30, 40]);
    assert_eq!(*ring.get(4), 10);
    assert_eq!(*ring.get(5), 20);
}

#[test]
fn ring_get_mut_modifies() {
    let mut ring = DescriptorRing::new([10u32, 20, 30]);
    *ring.get_mut(1) = 999;
    assert_eq!(*ring.get(1), 999);
}

#[test]
fn ring_current_mut_modifies() {
    let mut ring = DescriptorRing::new([10u32, 20, 30]);
    *ring.current_mut() = 42;
    assert_eq!(*ring.current(), 42);
}

#[test]
fn ring_iter() {
    let ring = DescriptorRing::new([1u32, 2, 3, 4]);
    let mut iter = ring.iter();
    assert_eq!(iter.next(), Some(&1));
    assert_eq!(iter.next(), Some(&2));
    assert_eq!(iter.next(), Some(&3));
    assert_eq!(iter.next(), Some(&4));
    assert_eq!(iter.next(), None);
}

#[test]
fn ring_iter_mut() {
    let mut ring = DescriptorRing::new([1u32, 2, 3, 4]);
    for val in ring.iter_mut() {
        *val *= 10;
    }
    assert_eq!(*ring.get(0), 10);
    assert_eq!(*ring.get(1), 20);
    assert_eq!(*ring.get(2), 30);
    assert_eq!(*ring.get(3), 40);
}

#[test]
fn ring_single_element() {
    let mut ring = DescriptorRing::new([42u32]);
    assert_eq!(ring.len(), 1);
    assert_eq!(*ring.current(), 42);
    ring.advance();
    assert_eq!(ring.current_index(), 0);
}

#[test]
fn ring_wraparound_stress() {
    let mut ring = DescriptorRing::new([0u32; 7]);
    for i in 0..100 {
        assert_eq!(ring.current_index(), i % 7);
        ring.advance();
    }
}

#[test]
fn ring_advance_by_wraps() {
    let mut ring = DescriptorRing::new([0u32; 5]);
    ring.advance_by(3);
    assert_eq!(ring.current_index(), 3);
    ring.advance_by(4);
    assert_eq!(ring.current_index(), 2);
}

#[test]
fn ring_base_addr_is_aligned() {
    let ring = DescriptorRing::new([7u32; 5]);
    let addr = ring.base_addr();
    assert_ne!(addr, 0);
    assert_eq!(addr % core::mem::align_of::<u32>(), 0);
}

#[test]
fn ring_k_advances_match_one_advance_by() {
    for k in 0..20usize {
        let mut stepped = DescriptorRing::new([0u32; 6]);
        let mut jumped = DescriptorRing::new([0u32; 6]);
        for _ in 0..k {
            stepped.advance();
        }
        jumped.advance_by(k);
        assert_eq!(stepped.current_index(), k % 6);
        assert_eq!(jumped.current_index(), stepped.current_index());
    }
}
