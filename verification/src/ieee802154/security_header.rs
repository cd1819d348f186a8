use vstd::prelude::*;

use vstd::bytes::{spec_u32_from_le_bytes, spec_u64_from_le_bytes, u32_from_le_bytes,
    u64_from_le_bytes};
use vstd::slice::slice_subrange;

verus! {

/// Errors surfaced by the sequential byte reader and by header
/// validation while decoding a security header.
#[derive(Debug, Clone, Copy, PartialEq, Eq, Structural)]
pub enum DecodeError {
    /// The input ends before the header's own layout says it may.
    Incomplete,
    /// A field holds an illegal encoding, such as a bad MIC level.
    BadInput,
}

/// Read one byte at `offset`, advancing it; fails on exhausted input.
fn read_u8(bytes: &[u8], offset: &mut usize) -> (r: Result<u8, DecodeError>)
    requires
        *old(offset) <= bytes@.len(),
    ensures
        *old(offset) < bytes@.len() ==> r == Ok::<u8, DecodeError>(bytes@[*old(offset) as int])
            && *final(offset) == *old(offset) + 1,
        *old(offset) == bytes@.len() ==> r == Err::<u8, DecodeError>(DecodeError::Incomplete)
            && *final(offset) == *old(offset),
{
    if *offset < bytes.len() {
        let b = bytes[*offset];
        *offset = *offset + 1;
        Ok(b)
    } else {
        Err(DecodeError::Incomplete)
    }
}

/// Read a little-endian 32-bit integer at `offset`, advancing it; fails
/// on short input without consuming anything.
fn read_u32_le(bytes: &[u8], offset: &mut usize) -> (r: Result<u32, DecodeError>)
    requires
        *old(offset) <= bytes@.len(),
    ensures
        *old(offset) + 4 <= bytes@.len() ==> r == Ok::<u32, DecodeError>(
            spec_u32_from_le_bytes(bytes@.subrange(*old(offset) as int, *old(offset) + 4)),
        ) && *final(offset) == *old(offset) + 4,
        *old(offset) + 4 > bytes@.len() ==> r == Err::<u32, DecodeError>(DecodeError::Incomplete)
            && *final(offset) == *old(offset),
{
    if bytes.len() - *offset >= 4 {
        let s = slice_subrange(bytes, *offset, *offset + 4);
        let v = u32_from_le_bytes(s);
        *offset = *offset + 4;
        Ok(v)
    } else {
        Err(DecodeError::Incomplete)
    }
}

/// Read a little-endian 64-bit integer at `offset`, advancing it; fails
/// on short input without consuming anything.
fn read_u64_le(bytes: &[u8], offset: &mut usize) -> (r: Result<u64, DecodeError>)
    requires
        *old(offset) <= bytes@.len(),
    ensures
        *old(offset) + 8 <= bytes@.len() ==> r == Ok::<u64, DecodeError>(
            spec_u64_from_le_bytes(bytes@.subrange(*old(offset) as int, *old(offset) + 8)),
        ) && *final(offset) == *old(offset) + 8,
        *old(offset) + 8 > bytes@.len() ==> r == Err::<u64, DecodeError>(DecodeError::Incomplete)
            && *final(offset) == *old(offset),
{
    if bytes.len() - *offset >= 8 {
        let s = slice_subrange(bytes, *offset, *offset + 8);
        let v = u64_from_le_bytes(s);
        *offset = *offset + 8;
        Ok(v)
    } else {
        Err(DecodeError::Incomplete)
    }
}

/// The variable-width auxiliary security header; field presence and
/// widths are fully determined by the one leading security-control byte.
/// Chapter 9.4
#[derive(Debug, Clone)]
pub struct AuxiliarySecurityHeader {
    pub security_level: Option<SecurityLevel>,
    pub key_identifier_mode: KeyIdentifierMode,
    pub frame_counter: Option<u32>,
}

/// The 3-bit security level of a security-control byte.
pub open spec fn spec_security_level_bits(sc: u8) -> u8 {
    sc & 0x7
}

/// The 2-bit key-identifier-mode code of a security-control byte.
pub open spec fn spec_key_id_mode_code(sc: u8) -> u8 {
    (sc >> 3) & 0x3
}

/// Whether the frame counter follows: bit 5 of the security-control
/// byte is the "frame counter suppressed" bit.
pub open spec fn spec_frame_counter_present(sc: u8) -> bool {
    sc & 0x20 == 0
}

/// A non-zero security level must carry a non-zero MIC code in its low
/// two bits; anything else is an illegal encoding.
pub open spec fn spec_mic_bits_ok(sc: u8) -> bool {
    spec_security_level_bits(sc) == 0 || spec_security_level_bits(sc) & 0x3 != 0
}

/// The key-identifier byte count that a 2-bit mode code implies.
pub open spec fn spec_kim_code_len(code: u8) -> int {
    if code == 1 {
        1
    } else if code == 2 {
        5
    } else if code == 3 {
        9
    } else {
        0
    }
}

/// Total width of the header that a security-control byte announces.
pub open spec fn spec_header_len(sc: u8) -> int {
    1 + (if spec_frame_counter_present(sc) {
        4int
    } else {
        0int
    }) + spec_kim_code_len(spec_key_id_mode_code(sc))
}

/// The decoded security level: absent when the 3-bit level is zero,
/// else the encryption bit and the MIC width named by the low two bits.
pub open spec fn spec_security_level(sc: u8) -> Option<SecurityLevel>
    recommends
        spec_mic_bits_ok(sc),
{
    let level = spec_security_level_bits(sc);
    if level == 0 {
        None
    } else {
        Some(
            SecurityLevel {
                encrypted: level & 0x4 != 0,
                mic: if level & 0x3 == 1 {
                    Mic::Mic32
                } else if level & 0x3 == 2 {
                    Mic::Mic64
                } else {
                    Mic::Mic128
                },
            },
        )
    }
}

/// The decoded frame counter: the four little-endian bytes after the
/// security-control byte, when present.
pub open spec fn spec_frame_counter(bytes: Seq<u8>) -> Option<u32>
    recommends
        spec_header_len(bytes[0]) <= bytes.len(),
{
    if spec_frame_counter_present(bytes[0]) {
        Some(spec_u32_from_le_bytes(bytes.subrange(1, 5)))
    } else {
        None
    }
}

/// The decoded key identifier, read after the optional frame counter:
/// nothing for mode 0, one index byte for mode 1, a 4- or 8-byte
/// little-endian key source and an index byte for modes 2 and 3.
pub open spec fn spec_key_identifier(bytes: Seq<u8>) -> KeyIdentifierMode
    recommends
        spec_header_len(bytes[0]) <= bytes.len(),
{
    let sc = bytes[0];
    let ko = 1 + (if spec_frame_counter_present(sc) {
        4int
    } else {
        0int
    });
    let code = spec_key_id_mode_code(sc);
    if code == 1 {
        KeyIdentifierMode::KeyIndex(KeyIndex(bytes[ko]))
    } else if code == 2 {
        KeyIdentifierMode::Key4(
            ShortKey(spec_u32_from_le_bytes(bytes.subrange(ko, ko + 4))),
            KeyIndex(bytes[ko + 4]),
        )
    } else if code == 3 {
        KeyIdentifierMode::Key8(
            LongKey(spec_u64_from_le_bytes(bytes.subrange(ko, ko + 8))),
            KeyIndex(bytes[ko + 8]),
        )
    } else {
        KeyIdentifierMode::Implicit
    }
}

impl AuxiliarySecurityHeader {
    /// Decode a security header from the prefix of a frame buffer,
    /// reporting how many bytes it used. Strictly sequential: the
    /// security-control byte, then the optional frame counter, then the
    /// mode-dependent key identifier.
    pub fn try_read(bytes: &[u8]) -> (r: Result<(AuxiliarySecurityHeader, usize), DecodeError>)
        ensures
            bytes@.len() == 0 ==> r == Err::<(AuxiliarySecurityHeader, usize), DecodeError>(
                DecodeError::Incomplete,
            ),
            bytes@.len() > 0 && !spec_mic_bits_ok(bytes@[0]) ==> r == Err::<
                (AuxiliarySecurityHeader, usize),
                DecodeError,
            >(DecodeError::BadInput),
            bytes@.len() > 0 && spec_mic_bits_ok(bytes@[0]) && bytes@.len() < spec_header_len(
                bytes@[0],
            ) ==> r == Err::<(AuxiliarySecurityHeader, usize), DecodeError>(DecodeError::Incomplete),
            bytes@.len() > 0 && spec_mic_bits_ok(bytes@[0]) && bytes@.len() >= spec_header_len(
                bytes@[0],
            ) ==> (r matches Ok(p) && {
                &&& p.1 == spec_header_len(bytes@[0])
                &&& p.0.security_level == spec_security_level(bytes@[0])
                &&& p.0.frame_counter == spec_frame_counter(bytes@)
                &&& p.0.key_identifier_mode == spec_key_identifier(bytes@)
            }),
            r matches Ok(p) ==> p.1 == 1 + (if p.0.frame_counter is Some {
                4int
            } else {
                0int
            }) + spec_key_identifier_length(p.0.key_identifier_mode),
    {
        let mut offset: usize = 0;

        let security_control: u8 = match read_u8(bytes, &mut offset) {
            Ok(b) => b,
            Err(e) => { return Err(e) },
        };

        let security_level: u8 = security_control & 0x7;
        let key_identifier_mode: u8 = (security_control >> 3) & 0x3;
        let frame_counter_present: bool = security_control & 0x20 == 0;

        proof {
            assert((security_control & 0x7) & 0x3 <= 3) by (bit_vector);
        }
        let mut hdr_security_level: Option<SecurityLevel> = None;
        if security_level != 0 {
            let mic = match security_level & 0x3 {
                0x1 => Mic::Mic32,
                0x2 => Mic::Mic64,
                0x3 => Mic::Mic128,
                _ => { return Err(DecodeError::BadInput) },
            };
            hdr_security_level = Some(
                SecurityLevel { encrypted: security_level & 0x4 != 0, mic },
            );
        }
        let mut frame_counter: Option<u32> = None;
        if frame_counter_present {
            match read_u32_le(bytes, &mut offset) {
                Ok(v) => { frame_counter = Some(v) },
                Err(e) => { return Err(e) },
            }
        }
        let kim = match key_identifier_mode {
            0x1 => {
                let index = match read_u8(bytes, &mut offset) {
                    Ok(b) => b,
                    Err(e) => { return Err(e) },
                };
                KeyIdentifierMode::KeyIndex(KeyIndex(index))
            },
            0x2 => {
                let key = match read_u32_le(bytes, &mut offset) {
                    Ok(v) => v,
                    Err(e) => { return Err(e) },
                };
                let index = match read_u8(bytes, &mut offset) {
                    Ok(b) => b,
                    Err(e) => { return Err(e) },
                };
                KeyIdentifierMode::Key4(ShortKey(key), KeyIndex(index))
            },
            0x3 => {
                let key = match read_u64_le(bytes, &mut offset) {
                    Ok(v) => v,
                    Err(e) => { return Err(e) },
                };
                let index = match read_u8(bytes, &mut offset) {
                    Ok(b) => b,
                    Err(e) => { return Err(e) },
                };
                KeyIdentifierMode::Key8(LongKey(key), KeyIndex(index))
            },
            _ => KeyIdentifierMode::Implicit,
        };

        Ok(
            (
                AuxiliarySecurityHeader {
                    security_level: hdr_security_level,
                    key_identifier_mode: kim,
                    frame_counter,
                },
                offset,
            ),
        )
    }
}

impl Default for AuxiliarySecurityHeader {
    /// An empty header: no security level, implicit key, no counter.
    fn default() -> (r: Self)
        ensures
            r.security_level is None,
            r.key_identifier_mode == KeyIdentifierMode::Implicit,
            r.frame_counter is None,
    {
        AuxiliarySecurityHeader {
            security_level: None,
            key_identifier_mode: KeyIdentifierMode::Implicit,
            frame_counter: None,
        }
    }
}

/// Width of the message integrity code appended to a secured frame.
#[derive(Debug, Clone, PartialEq, Eq, Structural)]
pub enum Mic {
    Mic32,
    Mic64,
    Mic128,
}

/// The byte size of each MIC width.
pub open spec fn spec_mic_size(mic: Mic) -> int {
    match mic {
        Mic::Mic32 => 4,
        Mic::Mic64 => 8,
        Mic::Mic128 => 16,
    }
}

impl Mic {
    pub fn size(&self) -> (r: usize)
        ensures
            r == spec_mic_size(*self),
    {
        match self {
            Mic::Mic32 => 4,
            Mic::Mic64 => 8,
            Mic::Mic128 => 16,
        }
    }
}

/// The decoded security level of a secured frame.
#[derive(Debug, Clone, PartialEq, Eq, Structural)]
pub struct SecurityLevel {
    pub mic: Mic,
    pub encrypted: bool,
}

#[derive(Debug, Clone, Copy, PartialEq, Eq, Structural)]
pub struct KeyIndex(pub u8);

#[derive(Debug, Clone, Copy, PartialEq, Eq, Structural)]
pub struct ShortKey(pub u32);

#[derive(Debug, Clone, Copy, PartialEq, Eq, Structural)]
pub struct LongKey(pub u64);

/// How the key for a secured frame is determined.
#[derive(Debug, Clone, PartialEq, Eq, Structural)]
pub enum KeyIdentifierMode {
    /// Key is determined implicitly from the originator and recipient(s) of the frame, as indicated in the frame header.
    Implicit,
    /// Key is determined from the Key Index field.
    KeyIndex(KeyIndex),
    /// Key is determined explicitly from the 4-octet Key Source field and the Key Index field.
    Key4(ShortKey, KeyIndex),
    /// Key is determined explicitly from the 8-octet Key Source field and the Key Index field.
    Key8(LongKey, KeyIndex),
}

impl Default for KeyIdentifierMode {
    fn default() -> (r: Self)
        ensures
            r == KeyIdentifierMode::Implicit,
    {
        KeyIdentifierMode::Implicit
    }
}

/// The key-identifier byte count that each mode occupies on the wire;
/// stays in lock-step with the decode logic so a caller can skip the
/// header without fully decoding it.
pub open spec fn spec_key_identifier_length(kim: KeyIdentifierMode) -> int {
    match kim {
        KeyIdentifierMode::Implicit => 0,
        KeyIdentifierMode::KeyIndex(_) => 1,
        KeyIdentifierMode::Key4(_, _) => 5,
        KeyIdentifierMode::Key8(_, _) => 9,
    }
}

impl KeyIdentifierMode {
    pub fn key_identifier_length(&self) -> (r: usize)
        ensures
            r == spec_key_identifier_length(*self),
    {
        match self {
            KeyIdentifierMode::Implicit => 0,
            KeyIdentifierMode::KeyIndex(_) => 1,
            KeyIdentifierMode::Key4(_, _) => 5,
            KeyIdentifierMode::Key8(_, _) => 9,
        }
    }
}

} // verus!
