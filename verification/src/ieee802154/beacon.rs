use vstd::prelude::*;

use crate::ieee802154::address::AddressKind;
use crate::ieee802154::control_field::StandardControlField;
use crate::ieee802154::gts::Gts;
use crate::ieee802154::security_header::AuxiliarySecurityHeader;

verus! {

/// The one fully specified frame kind: header fields, then superframe,
/// GTS block and trailing opaque payload bytes.
#[derive(Debug)]
pub struct BeaconFrame<'a> {
    pub header: BeaconHeader,
    pub payload: BeaconPayload<'a>,
}

/// MAC header of a beacon frame.
#[derive(Debug, Clone)]
pub struct BeaconHeader {
    pub control: StandardControlField,
    pub seq_no: u8,
    pub src_addr: Option<AddressKind>,
    pub dst_addr: Option<AddressKind>,
    pub aux: AuxiliarySecurityHeader,
}

/// Beacon body: the packed superframe specification, the GTS block and
/// the trailing bytes, borrowed from the caller's input buffer.
#[derive(Debug)]
pub struct BeaconPayload<'a> {
    pub super_frame: SuperFrame,
    pub gts: Gts,
    pub data: &'a [u8],
}

/// Size in byte of a super frame
pub const SUPER_FRAME_SIZE: usize = 2;

/// A 16-bit word read little-endian from two wire bytes.
pub open spec fn spec_u16_le(b0: u8, b1: u8) -> u16 {
    (b0 as u16) | ((b1 as u16) << 8)
}

/// Super frame structure
/// Chapter 7.3.1.4
#[derive(Debug, Clone)]
pub struct SuperFrame {
    pub beacon_order: u8,
    pub super_frame_order: u8,
    pub final_cap_slot: u8,
    pub low_energy: bool,
    pub pan_coordinator: bool,
    pub association_permit: bool,
}

impl SuperFrame {
    /// The six fields extracted from the packed 16-bit word by their
    /// fixed offsets and widths; bit 13 of the word is unused and is not
    /// retained.
    pub open spec fn spec_from_word(w: u16) -> SuperFrame {
        SuperFrame {
            beacon_order: (w & 0xF) as u8,
            super_frame_order: ((w & 0xF0) >> 4) as u8,
            final_cap_slot: ((w & 0xF00) >> 8) as u8,
            low_energy: (w & 0x1000) >> 12 == 1,
            pan_coordinator: (w & 0x4000) >> 14 == 1,
            association_permit: (w & 0x8000) >> 15 == 1,
        }
    }

    /// The packed 16-bit word: each field masked to its width and placed
    /// at its fixed offset; unused bits re-encode as zero.
    pub open spec fn spec_word(self) -> u16 {
        ((self.beacon_order as u16) & 0xF) | (((self.super_frame_order as u16) << 4) & 0xF0) | (((
        self.final_cap_slot as u16) << 8) & 0xF00) | (((if self.low_energy {
            1u16
        } else {
            0u16
        }) << 12) & 0x1000) | (((if self.pan_coordinator {
            1u16
        } else {
            0u16
        }) << 14) & 0x4000) | (((if self.association_permit {
            1u16
        } else {
            0u16
        }) << 15) & 0x8000)
    }

    /// The two little-endian wire bytes of the packed word.
    pub open spec fn spec_bytes(self) -> Seq<u8> {
        seq![(self.spec_word() & 0xFF) as u8, ((self.spec_word() >> 8) & 0xFF) as u8]
    }

    /// Unpack a superframe specification from its two wire bytes,
    /// interpreted as a little-endian 16-bit word. Total: any bit
    /// pattern is a legal superframe.
    pub fn from_bytes(data: &[u8; SUPER_FRAME_SIZE]) -> (r: Self)
        ensures
            r == SuperFrame::spec_from_word(spec_u16_le(data@[0], data@[1])),
    {
        let w: u16 = (data[0] as u16) | ((data[1] as u16) << 8);

        SuperFrame {
            beacon_order: (w & 0xF) as u8,
            super_frame_order: ((w & 0xF0) >> 4) as u8,
            final_cap_slot: ((w & 0xF00) >> 8) as u8,
            low_energy: (w & 0x1000) >> 12 == 1,
            pan_coordinator: (w & 0x4000) >> 14 == 1,
            association_permit: (w & 0x8000) >> 15 == 1,
        }
    }

    /// Pack the superframe back into its two little-endian wire bytes.
    pub fn bytes(&self) -> (r: [u8; 2])
        ensures
            r@ == self.spec_bytes(),
    {
        let w: u16 = ((self.beacon_order as u16) & 0xF) | (((self.super_frame_order as u16) << 4)
            & 0xF0) | (((self.final_cap_slot as u16) << 8) & 0xF00) | (((if self.low_energy {
            1u16
        } else {
            0u16
        }) << 12) & 0x1000) | (((if self.pan_coordinator {
            1u16
        } else {
            0u16
        }) << 14) & 0x4000) | (((if self.association_permit {
            1u16
        } else {
            0u16
        }) << 15) & 0x8000);

        [(w & 0xFF) as u8, ((w >> 8) & 0xFF) as u8]
    }
}

/// Packing a superframe right after unpacking it reproduces the word
/// except for bit 13, which no field stores and which re-encodes as
/// zero.
pub proof fn lemma_super_frame_word_round_trip(w: u16)
    ensures
        SuperFrame::spec_from_word(w).spec_word() == w & 0xDFFF,
{
    let sf = SuperFrame::spec_from_word(w);
    let le: u16 = if sf.low_energy {
        1
    } else {
        0
    };
    let pc: u16 = if sf.pan_coordinator {
        1
    } else {
        0
    };
    let ap: u16 = if sf.association_permit {
        1
    } else {
        0
    };
    assert((w & 0x1000) >> 12 == 0 || (w & 0x1000) >> 12 == 1) by (bit_vector);
    assert((w & 0x4000) >> 14 == 0 || (w & 0x4000) >> 14 == 1) by (bit_vector);
    assert((w & 0x8000) >> 15 == 0 || (w & 0x8000) >> 15 == 1) by (bit_vector);
    assert(le == (w & 0x1000) >> 12);
    assert(pc == (w & 0x4000) >> 14);
    assert(ap == (w & 0x8000) >> 15);
    assert((((w & 0xF) as u8 as u16) & 0xF) | (((((w & 0xF0) >> 4) as u8 as u16) << 4) & 0xF0) | ((
    (((w & 0xF00) >> 8) as u8 as u16) << 8) & 0xF00) | ((le << 12) & 0x1000) | ((pc << 14) & 0x4000)
        | ((ap << 15) & 0x8000) == w & 0xDFFF) by (bit_vector)
        requires
            le == (w & 0x1000) >> 12,
            pc == (w & 0x4000) >> 14,
            ap == (w & 0x8000) >> 15,
    ;
}

/// Superframe round trip: unpacking two wire bytes and packing the
/// result reproduces them exactly, for every input whose unused bit
/// (bit 13 of the word, bit 5 of the second byte) is clear. That bit is
/// not retained by any field and re-encodes as zero, so inputs with it
/// set cannot round-trip.
pub proof fn lemma_super_frame_round_trip(b0: u8, b1: u8)
    requires
        b1 & 0x20 == 0,
    ensures
        SuperFrame::spec_from_word(spec_u16_le(b0, b1)).spec_bytes() == seq![b0, b1],
{
    let w = spec_u16_le(b0, b1);
    let sf = SuperFrame::spec_from_word(w);
    lemma_super_frame_word_round_trip(w);
    assert(w & 0xDFFF == w) by (bit_vector)
        requires
            w == (b0 as u16) | ((b1 as u16) << 8),
            b1 & 0x20 == 0,
    ;
    assert((w & 0xFF) as u8 == b0 && ((w >> 8) & 0xFF) as u8 == b1) by (bit_vector)
        requires
            w == (b0 as u16) | ((b1 as u16) << 8),
    ;
    assert(sf.spec_bytes() =~= seq![b0, b1]);
}

/// Placeholder for the pending-address beacon field.
#[derive(Debug, Clone)]
pub struct PendingAddress {}

} // verus!
