use mac154::ieee802154::beacon::SuperFrame;

#[test]
fn from_bits_parse_correct_values() {
    let bytes: [u8; 2] = [0b10000111, 0b10010010];

    let super_frame = SuperFrame::from_bytes(&bytes);

    assert_eq!(super_frame.beacon_order, 0x7);
    assert_eq!(super_frame.super_frame_order, 0x8);
    assert_eq!(super_frame.final_cap_slot, 0x2);
    assert_eq!(super_frame.low_energy, true);
    assert_eq!(super_frame.pan_coordinator, false);
    assert_eq!(super_frame.association_permit, true);
}

#[test]
fn from_bits_eq_bits() {
    let bytes: [u8; 2] = [0b10100101, 0b01010010];

    assert_eq!(SuperFrame::from_bytes(&bytes).bytes(), bytes);
}

#[test]
fn super_frame_round_trip_exhaustive() {
    for word in 0..=0xFFFFu16 {
        let bytes = word.to_le_bytes();
        let out = SuperFrame::from_bytes(&bytes).bytes();
        // bit 13 of the word is not stored in any field, so it
        // re-encodes as zero; every other bit round-trips exactly
        let expected = (word & 0xDFFF).to_le_bytes();
        assert_eq!(out, expected);
        if bytes[1] & 0x20 == 0 {
            assert_eq!(out, bytes);
        }
    }
}

#[test]
fn super_frame_unused_bit_reencodes_as_zero() {
    let bytes: [u8; 2] = [0x00, 0x20];

    assert_eq!(SuperFrame::from_bytes(&bytes).bytes(), [0x00, 0x00]);
}
