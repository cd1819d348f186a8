use mac154::address::Address;
use mac154::ieee802154::address::{LongAddress, PanId, ShortAddress};

#[test]
fn broadcast_for_short_address() {
    assert_eq!(ShortAddress::broadcast().value(), 0xFFFF);
    assert_eq!(ShortAddress::broadcast().pan_id(), PanId::broadcast());
}

#[test]
fn broadcast_for_long_address() {
    assert_eq!(LongAddress::broadcast().value(), 0xFFFFFFFF);
    assert_eq!(LongAddress::broadcast().pan_id(), PanId::broadcast());
}

#[test]
fn pan_id_broadcast_value() {
    assert_eq!(PanId::broadcast().value(), 0xFFFF);
}

#[test]
fn new_addresses_keep_their_fields() {
    let pan = PanId::new(0x1234);
    assert_eq!(pan.value(), 0x1234);

    let short = ShortAddress::new(pan, 0xABCD);
    assert_eq!(short.value(), 0xABCD);
    assert_eq!(short.pan_id(), pan);

    let long = LongAddress::new(pan, 0x0123456789ABCDEF);
    assert_eq!(long.value(), 0x0123456789ABCDEF);
    assert_eq!(long.pan_id(), pan);
}
