use mac154::ieee802154::frame::FrameKind;

#[test]
fn frame_frame_kind_from_byte_valid_values() {
    assert_eq!(FrameKind::Beacon, FrameKind::from_byte(0x0).unwrap());
    assert_eq!(FrameKind::Data, FrameKind::from_byte(0x1).unwrap());
    assert_eq!(FrameKind::Acknowledgment, FrameKind::from_byte(0x2).unwrap());
    assert_eq!(FrameKind::MacCommand, FrameKind::from_byte(0x3).unwrap());
    assert_eq!(FrameKind::MultiPurpose, FrameKind::from_byte(0x5).unwrap());
    assert_eq!(FrameKind::Frak, FrameKind::from_byte(0x6).unwrap());
    assert_eq!(FrameKind::Extended, FrameKind::from_byte(0x7).unwrap());
}

#[test]
fn frame_frame_kind_from_byte_invalid_values() {
    assert!(matches!(
        FrameKind::from_byte(0xFF),
        Err(mac154::parser::Error::InvalidHeader)
    ));
    assert!(matches!(
        FrameKind::from_byte(0x8),
        Err(mac154::parser::Error::InvalidHeader)
    ));
    assert!(matches!(
        FrameKind::from_byte(0xA),
        Err(mac154::parser::Error::InvalidHeader)
    ));
}
