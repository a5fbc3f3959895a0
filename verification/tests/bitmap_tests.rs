use dust_bridging::bitmap::{get_bit, set_bit, whitelist_bytes, zero_bitmap};

#[test]
fn test_whitelist_bytes() {
    assert_eq!(whitelist_bytes(0), 0);
    assert_eq!(whitelist_bytes(1), 1);
    assert_eq!(whitelist_bytes(7), 1);
    assert_eq!(whitelist_bytes(8), 1);
    assert_eq!(whitelist_bytes(9), 2);
}

#[test]
fn whitelist_bytes_is_ceil_of_eighth() {
    assert_eq!(whitelist_bytes(0), 0);
    assert_eq!(whitelist_bytes(1), 1);
    assert_eq!(whitelist_bytes(7), 1);
    assert_eq!(whitelist_bytes(8), 1);
    assert_eq!(whitelist_bytes(9), 2);
    assert_eq!(whitelist_bytes(65535), 8192);
}

#[test]
fn zero_bitmap_is_all_clear() {
    let bm = zero_bitmap(3);
    assert_eq!(bm.len(), 3);
    for id in 0..24u16 {
        assert!(!get_bit(&bm, id));
    }
}

#[test]
fn set_bit_touches_only_its_bit() {
    let mut bm = zero_bitmap(2);
    set_bit(&mut bm, 9);
    for id in 0..16u16 {
        assert_eq!(get_bit(&bm, id), id == 9);
    }
    assert_eq!(bm[0], 0);
    assert_eq!(bm[1], 2);
}

#[test]
fn set_bit_twice_changes_nothing() {
    let mut bm = zero_bitmap(2);
    set_bit(&mut bm, 13);
    let snapshot = (bm[0], bm[1]);
    set_bit(&mut bm, 13);
    assert_eq!((bm[0], bm[1]), snapshot);
}

#[test]
fn clear_bit_touches_only_its_bit() {
    let mut bm = vec![0xFF, 0xFF];
    dust_bridging::bitmap::clear_bit(&mut bm, 9);
    for id in 0..16u16 {
        assert_eq!(get_bit(&bm, id), id != 9);
    }
    assert_eq!(bm[0], 0xFF);
    assert_eq!(bm[1], 0xFD);
}

#[test]
fn set_range_overwrites_verbatim() {
    let mut bm = vec![1, 2, 3, 4];
    dust_bridging::bitmap::set_range(&mut bm, 1, &vec![9, 8]);
    assert_eq!(bm, vec![1, 9, 8, 4]);
}
