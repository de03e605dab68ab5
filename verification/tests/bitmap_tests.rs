use hypervisor::nt::RTL_BITMAP;

#[test]
fn fresh_bitmap_is_clear() {
    let bm = RTL_BITMAP::initialize(100);
    assert_eq!(bm.size_of_bit_map, 100);
    assert_eq!(bm.buffer.len(), 4);
    for i in 0..100 {
        assert!(!bm.test_bit(i));
    }
}

#[test]
fn word_count_is_exact_for_multiples() {
    let bm = RTL_BITMAP::initialize(64);
    assert_eq!(bm.buffer.len(), 2);
    let bm = RTL_BITMAP::initialize(65);
    assert_eq!(bm.buffer.len(), 3);
    let bm = RTL_BITMAP::initialize(0);
    assert_eq!(bm.buffer.len(), 0);
}

#[test]
fn set_bit_touches_exactly_one_bit() {
    let mut bm = RTL_BITMAP::initialize(70);
    bm.set_bit(33);
    for i in 0..70 {
        assert_eq!(bm.test_bit(i), i == 33);
    }
    bm.set_bit(0);
    bm.set_bit(69);
    assert!(bm.test_bit(0) && bm.test_bit(33) && bm.test_bit(69));
    assert!(!bm.test_bit(34) && !bm.test_bit(1));
}

#[test]
fn clear_all_bits_resets_the_map() {
    let mut bm = RTL_BITMAP::initialize(48);
    bm.set_bit(5);
    bm.set_bit(40);
    bm.clear_all_bits();
    assert_eq!(bm.size_of_bit_map, 48);
    for i in 0..48 {
        assert!(!bm.test_bit(i));
    }
}
