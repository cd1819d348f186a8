use mac154::ieee802154::security_header::{
    AuxiliarySecurityHeader, DecodeError, KeyIdentifierMode, KeyIndex, LongKey, Mic,
    SecurityLevel, ShortKey,
};

#[test]
fn with_frame_counter() {
    let input: [u8; 5] = [0x00, 0xFE, 0xDC, 0xBA, 0x98];

    let (hdr, _offset) = AuxiliarySecurityHeader::try_read(&input).unwrap();

    assert_eq!(hdr.security_level, None);
    assert_eq!(hdr.frame_counter, Some(0x98BADCFE));
    assert_eq!(hdr.key_identifier_mode, KeyIdentifierMode::Implicit);
}

#[test]
fn without_frame_counter() {
    let input: [u8; 1] = [0x1 << 5];

    let (hdr, _offset) = AuxiliarySecurityHeader::try_read(&input).unwrap();

    assert_eq!(hdr.frame_counter, None);
    assert_eq!(hdr.key_identifier_mode, KeyIdentifierMode::Implicit);
    assert_eq!(hdr.security_level, None);
}

#[test]
fn with_enc_mic_128_and_key8() {
    let key: u64 = 0xABCD12345678ABCD;
    let key_index: u8 = 0xCD;

    let mut input: Vec<u8> = Vec::new();
    input.push(0x3F);
    input.extend_from_slice(&key.to_le_bytes());
    input.push(key_index);

    let (hdr, _offset) = AuxiliarySecurityHeader::try_read(&input).unwrap();

    assert_eq!(hdr.frame_counter, None);
    assert_eq!(
        hdr.security_level,
        Some(SecurityLevel {
            encrypted: true,
            mic: Mic::Mic128,
        })
    );
    assert_eq!(
        hdr.key_identifier_mode,
        KeyIdentifierMode::Key8(LongKey(key), KeyIndex(key_index))
    );
}

#[test]
fn with_frame_counter_and_no_enc_mic_64_and_key4() {
    let key: u32 = 0xDEADB33F;
    let key_index: u8 = 0x42;
    let frame_counter: u32 = 0x12345678;

    let mut input: Vec<u8> = Vec::new();
    input.push(0b00010010);
    input.extend_from_slice(&frame_counter.to_le_bytes());
    input.extend_from_slice(&key.to_le_bytes());
    input.extend_from_slice(&key_index.to_be_bytes());

    let (hdr, _offset) = AuxiliarySecurityHeader::try_read(&input).unwrap();

    assert_eq!(hdr.frame_counter, Some(frame_counter));
    assert_eq!(
        hdr.security_level,
        Some(SecurityLevel {
            mic: Mic::Mic64,
            encrypted: false
        })
    );
    assert_eq!(
        hdr.key_identifier_mode,
        KeyIdentifierMode::Key4(ShortKey(key), KeyIndex(key_index))
    );
}

#[test]
fn bytes_consumed_matches_header_layout() {
    // counter present, implicit key: one control byte plus four
    let input: [u8; 5] = [0x00, 0xFE, 0xDC, 0xBA, 0x98];
    let (hdr, consumed) = AuxiliarySecurityHeader::try_read(&input).unwrap();
    assert_eq!(
        consumed,
        1 + 4 + hdr.key_identifier_mode.key_identifier_length()
    );
    assert_eq!(consumed, 5);

    // counter suppressed, implicit key: the control byte alone
    let input: [u8; 1] = [0x20];
    let (_, consumed) = AuxiliarySecurityHeader::try_read(&input).unwrap();
    assert_eq!(consumed, 1);

    // counter suppressed, 8-byte key source and index
    let mut input: Vec<u8> = Vec::new();
    input.push(0x3F);
    input.extend_from_slice(&0u64.to_le_bytes());
    input.push(0x01);
    let (hdr, consumed) = AuxiliarySecurityHeader::try_read(&input).unwrap();
    assert_eq!(
        consumed,
        1 + hdr.key_identifier_mode.key_identifier_length()
    );
    assert_eq!(consumed, 10);

    // counter present, 4-byte key source and index
    let mut input: Vec<u8> = Vec::new();
    input.push(0b00010010);
    input.extend_from_slice(&0u32.to_le_bytes());
    input.extend_from_slice(&0u32.to_le_bytes());
    input.push(0x01);
    let (_, consumed) = AuxiliarySecurityHeader::try_read(&input).unwrap();
    assert_eq!(consumed, 10);
}

#[test]
fn bad_mic_level_is_rejected() {
    // security level 4: non-zero level whose MIC bits are zero
    let input: [u8; 5] = [0x04, 0x00, 0x00, 0x00, 0x00];

    assert!(matches!(
        AuxiliarySecurityHeader::try_read(&input),
        Err(DecodeError::BadInput)
    ));
}

#[test]
fn short_input_is_incomplete() {
    let empty: [u8; 0] = [];
    assert!(matches!(
        AuxiliarySecurityHeader::try_read(&empty),
        Err(DecodeError::Incomplete)
    ));

    // counter announced but missing
    let input: [u8; 1] = [0x00];
    assert!(matches!(
        AuxiliarySecurityHeader::try_read(&input),
        Err(DecodeError::Incomplete)
    ));

    // 8-byte key source announced but cut short
    let input: [u8; 4] = [0x3F, 0x01, 0x02, 0x03];
    assert!(matches!(
        AuxiliarySecurityHeader::try_read(&input),
        Err(DecodeError::Incomplete)
    ));
}

#[test]
fn mic_sizes() {
    assert_eq!(Mic::Mic32.size(), 4);
    assert_eq!(Mic::Mic64.size(), 8);
    assert_eq!(Mic::Mic128.size(), 16);
}

#[test]
fn key_identifier_lengths() {
    assert_eq!(KeyIdentifierMode::Implicit.key_identifier_length(), 0);
    assert_eq!(
        KeyIdentifierMode::KeyIndex(KeyIndex(1)).key_identifier_length(),
        1
    );
    assert_eq!(
        KeyIdentifierMode::Key4(ShortKey(1), KeyIndex(1)).key_identifier_length(),
        5
    );
    assert_eq!(
        KeyIdentifierMode::Key8(LongKey(1), KeyIndex(1)).key_identifier_length(),
        9
    );
}

#[test]
fn default_header_is_empty() {
    let hdr = AuxiliarySecurityHeader::default();
    assert_eq!(hdr.security_level, None);
    assert_eq!(hdr.frame_counter, None);
    assert_eq!(hdr.key_identifier_mode, KeyIdentifierMode::Implicit);
    assert_eq!(KeyIdentifierMode::default(), KeyIdentifierMode::Implicit);
}
