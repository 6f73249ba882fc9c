use hdbool::HDBool;

#[test]
fn test_refresh_idempotent_for_all_words() {
    for w in 0u8..=255 {
        assert_eq!(HDBool::refresh(HDBool::refresh(w)), HDBool::refresh(w));
    }
}

#[test]
fn test_refresh_canonical_for_all_words() {
    for w in 0u8..=255 {
        let r = HDBool::refresh(w);
        assert!(r == 0x00 || r == 0xFF);
    }
}

#[test]
fn test_bool_round_trip() {
    assert_eq!(HDBool::new(true).to_bool(), true);
    assert_eq!(HDBool::new(false).to_bool(), false);
}

#[test]
fn test_from_u8_to_bool_is_majority_vote() {
    for w in 0u8..=255 {
        assert_eq!(HDBool::from_u8(w).to_bool(), w.count_ones() > 4);
    }
}

#[test]
fn test_four_set_bits_resolve_to_zero() {
    assert_eq!(HDBool::refresh(0b_1001_1001_u8), 0x00);
    assert_eq!(HDBool::refresh(0b_1111_0000_u8), 0x00);
    assert_eq!(HDBool::refresh(0b_0000_1111_u8), 0x00);
    assert_eq!(HDBool::refresh(0b_0101_0101_u8), 0x00);
    for w in 0u8..=255 {
        if w.count_ones() == 4 {
            assert_eq!(HDBool::refresh(w), 0x00);
        }
    }
}

#[test]
fn test_majority_of_set_bits_resolves_to_ones() {
    assert_eq!(HDBool::refresh(0b_1111_1100_u8), 0xFF);
}

#[test]
fn test_canonical_words_are_stable() {
    assert_eq!(HDBool::refresh(0xFF), 0xFF);
    assert_eq!(HDBool::refresh(0x00), 0x00);
}

#[test]
fn test_single_bit_flip_is_healed() {
    for c in [0x00u8, 0xFFu8] {
        for k in 0u8..8 {
            let corrupted = c ^ (1u8 << k);
            assert_eq!(HDBool::refresh(corrupted), c);
            assert_eq!(HDBool::from_u8(corrupted).as_u8(), c);
        }
    }
}

#[test]
fn test_new_produces_canonical_raw_words() {
    assert_eq!(HDBool::new(true).as_u8(), 0xFF);
    assert_eq!(HDBool::new(false).as_u8(), 0x00);
}

#[test]
fn test_as_u8_does_not_normalize() {
    assert_eq!(HDBool(0b_0101_0101_u8).as_u8(), 0b_0101_0101_u8);
    assert_eq!(HDBool(0b_1110_0000_u8).as_u8(), 0b_1110_0000_u8);
}

#[test]
fn test_non_canonical_values_read_by_majority_vote() {
    assert_eq!(HDBool(0b_1110_1110_u8).to_bool(), true);
    assert_eq!(HDBool(0b_0001_0001_u8).to_bool(), false);
    assert_eq!(HDBool(0b_1001_1001_u8).to_bool(), false);
    for w in 0u8..=255 {
        assert_eq!(HDBool(w).to_bool(), w.count_ones() > 4);
    }
}
