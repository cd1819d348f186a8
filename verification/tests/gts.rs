use mac154::address::Address;
use mac154::ieee802154::address::{PanId, ShortAddress};
use mac154::ieee802154::gts::{Gts, GtsDirection};

#[test]
fn from_bytes_zero_gts_descriptors() {
    let payload = [0x0];

    let gts = Gts::from_bytes(PanId::broadcast(), &payload).unwrap();

    assert_eq!(gts.permit, false);
    assert_eq!(gts.descriptors.len(), 0);
}

#[test]
fn from_bytes_max_gts_descriptors() {
    let payload: [u8; 23] = [
        0x87, 0xF0, 0xAB, 0xCD, 0xFA, 0xAB, 0xCD, 0xFA, 0xAB, 0xCD, 0xFA, 0xAB, 0xCD, 0xFA,
        0xAB, 0xCD, 0xFA, 0xAB, 0xCD, 0xFA, 0xAB, 0xCD, 0xFA,
    ];

    let gts = Gts::from_bytes(PanId::broadcast(), &payload).unwrap();

    assert_eq!(gts.permit, true);
    assert_eq!(gts.descriptors.len(), 7);

    for i in 0..7 {
        let desc = &gts.descriptors[i];
        assert_eq!(desc.address, ShortAddress::new(PanId::broadcast(), 0xCDAB));

        let direction = match i > 7 / 2 {
            true => GtsDirection::Receive,
            false => GtsDirection::Transmit,
        };

        assert_eq!(desc.direction, direction);
        assert_eq!(desc.starting_slot, 0xA);
        assert_eq!(desc.length, 0xF);
    }
}

#[test]
fn from_bytes_empty_input_is_invalid() {
    let payload: [u8; 0] = [];

    assert!(matches!(
        Gts::from_bytes(PanId::broadcast(), &payload),
        Err(mac154::parser::Error::InvalidPayload)
    ));
}

#[test]
fn from_bytes_truncated_descriptor_list_is_invalid() {
    // two descriptors announced, but only one descriptor's bytes present
    let payload: [u8; 5] = [0x02, 0x01, 0xAB, 0xCD, 0xFA];

    assert!(matches!(
        Gts::from_bytes(PanId::broadcast(), &payload),
        Err(mac154::parser::Error::InvalidPayload)
    ));
}

#[test]
fn from_bytes_overlong_descriptor_list_is_invalid() {
    // one descriptor announced, one trailing byte beyond its block
    let payload: [u8; 6] = [0x01, 0x01, 0xAB, 0xCD, 0xFA, 0x00];

    assert!(matches!(
        Gts::from_bytes(PanId::broadcast(), &payload),
        Err(mac154::parser::Error::InvalidPayload)
    ));
}

#[test]
fn from_bytes_single_descriptor_fields() {
    let pan = PanId::new(0x2222);
    let payload: [u8; 5] = [0x81, 0x01, 0x34, 0x12, 0x5A];

    let gts = Gts::from_bytes(pan, &payload).unwrap();

    assert_eq!(gts.permit, true);
    assert_eq!(gts.descriptors.len(), 1);
    let desc = &gts.descriptors[0];
    assert_eq!(desc.address, ShortAddress::new(pan, 0x1234));
    assert_eq!(desc.starting_slot, 0xA);
    assert_eq!(desc.length, 0xB);
    assert_eq!(desc.direction, GtsDirection::Receive);
}

#[test]
fn from_bytes_count_zero_ignores_trailing_bytes() {
    // permit set, count zero: nothing after byte 0 is consumed
    let payload: [u8; 3] = [0x80, 0xFF, 0xFF];

    let gts = Gts::from_bytes(PanId::broadcast(), &payload).unwrap();

    assert_eq!(gts.permit, true);
    assert_eq!(gts.descriptors.len(), 0);
}
