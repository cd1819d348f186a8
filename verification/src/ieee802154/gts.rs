use vstd::prelude::*;

use crate::address::Address;
use crate::ieee802154::address::{PanId, ShortAddress};

verus! {

/// The descriptor list is capped by the 3-bit count field of the GTS
/// specification byte.
pub const MAX_GTS_DESCRIPTOR: usize = 0x7;

/// GTS descriptor size in bytes.
pub(crate) const GTS_DESCRIPTOR_SIZE: usize = 0x3;

#[verifier::external_type_specification]
#[verifier::external_body]
#[verifier::reject_recursive_types(T)]
pub struct ExHeaplessVec<T, const N: usize>(heapless::Vec<T, N>);

/// The descriptors held by the bounded descriptor vector, oldest first.
pub uninterp spec fn gts_descriptor_seq(v: heapless::Vec<GtsDescriptor, MAX_GTS_DESCRIPTOR>) -> Seq<
    GtsDescriptor,
>;

/// Relies on heapless::Vec::new: a freshly constructed vector holds
/// nothing.
#[verifier::external_body]
fn descriptor_vec_new() -> (r: heapless::Vec<GtsDescriptor, MAX_GTS_DESCRIPTOR>)
    ensures
        gts_descriptor_seq(r) == Seq::<GtsDescriptor>::empty(),
{
    heapless::Vec::new()
}

/// Relies on heapless::Vec::push: below capacity it appends the item at
/// the back and reports success.
#[verifier::external_body]
fn descriptor_vec_push(v: &mut heapless::Vec<GtsDescriptor, MAX_GTS_DESCRIPTOR>, d: GtsDescriptor)
    requires
        gts_descriptor_seq(*old(v)).len() < MAX_GTS_DESCRIPTOR,
    ensures
        gts_descriptor_seq(*final(v)) == gts_descriptor_seq(*old(v)).push(d),
{
    let _ = v.push(d);
}

/// Coordinator reception of GTS requests: the permit flag and a bounded
/// ordered list of at most seven descriptors.
#[derive(Debug)]
pub struct Gts {
    pub permit: bool,
    /// Coordinator accepting GTS request
    pub descriptors: heapless::Vec<GtsDescriptor, MAX_GTS_DESCRIPTOR>,
}

/// The direction bit `i` of the 7-bit direction bitmap: set means the
/// descriptor's slot is a receive slot, clear means transmit.
pub open spec fn spec_direction_bit(bitmap: u8, i: u8) -> GtsDirection
    recommends
        i < 8,
{
    if bitmap & (1u8 << i) != 0 {
        GtsDirection::Receive
    } else {
        GtsDirection::Transmit
    }
}

/// Whether `d` is the descriptor that the GTS block `data` describes at
/// index `i`: a short address read little-endian at the descriptor's
/// slot, the packed starting-slot and length nibbles of its info byte,
/// and the direction taken from bit `i` of the bitmap in byte 1.
pub open spec fn spec_descriptor_matches(
    pan: PanId,
    data: Seq<u8>,
    i: int,
    d: GtsDescriptor,
) -> bool
    recommends
        0 <= i,
        2 + 3 * i + 2 < data.len(),
{
    let base = 2 + 3 * i;
    &&& d.address.spec_pan_id() == pan
    &&& d.address.spec_value() == (data[base] as u16) | ((data[base + 1] as u16) << 8)
    &&& d.starting_slot == data[base + 2] & 0xF
    &&& d.length == (data[base + 2] & 0x78) >> 3
    &&& d.direction == spec_direction_bit(data[1] & 0x7F, i as u8)
}

/// Whether a GTS block is accepted: it must hold the specification byte,
/// and a non-zero descriptor count fixes the block's total length at one
/// specification byte, one direction byte and three bytes per descriptor.
pub open spec fn spec_gts_accepts(data: Seq<u8>) -> bool {
    &&& data.len() > 0
    &&& {
        let count = (data[0] & 0x7) as int;
        count == 0 || data.len() == 2 + 3 * count
    }
}

impl Gts {
    /// Decode a GTS block. Byte 0 carries the descriptor count in its low
    /// three bits and the permit flag in bit 7; with a non-zero count,
    /// byte 1 carries the direction bitmap and each descriptor occupies
    /// three further bytes. Any other length is rejected as
    /// `InvalidPayload`.
    pub fn from_bytes(pan: PanId, data: &[u8]) -> (r: Result<Self, crate::parser::Error>)
        ensures
            r is Ok <==> spec_gts_accepts(data@),
            r is Err ==> r == Err::<Gts, crate::parser::Error>(crate::parser::Error::InvalidPayload),
            r matches Ok(g) ==> {
                &&& g.permit == (data@[0] & 0x80 != 0)
                &&& gts_descriptor_seq(g.descriptors).len() == (data@[0] & 0x7) as int
                &&& forall|i: int|
                    0 <= i < (data@[0] & 0x7) as int ==> spec_descriptor_matches(
                        pan,
                        data@,
                        i,
                        #[trigger] gts_descriptor_seq(g.descriptors)[i],
                    )
            },
    {
        if data.len() == 0 {
            return Err(crate::parser::Error::InvalidPayload);
        }
        let gts_spec: u8 = data[0];

        proof {
            assert(gts_spec & 0x7 <= 7) by (bit_vector);
        }
        let descriptor_count: usize = (gts_spec & 0x7) as usize;
        let permit: bool = gts_spec & 0x80 != 0;
        let mut descriptors = descriptor_vec_new();

        if descriptor_count != 0 {
            // GTS specification + GTS direction + GTS list
            if data.len() != descriptor_count * GTS_DESCRIPTOR_SIZE + 2 {
                return Err(crate::parser::Error::InvalidPayload);
            }
            let gts_direction: u8 = data[1] & 0x7F;

            let mut i: usize = 0;
            while i < descriptor_count
                invariant
                    i <= descriptor_count,
                    descriptor_count == (data@[0] & 0x7) as int,
                    descriptor_count <= 7,
                    data@.len() == 2 + 3 * descriptor_count,
                    gts_direction == data@[1] & 0x7F,
                    gts_descriptor_seq(descriptors).len() == i,
                    forall|j: int|
                        0 <= j < i ==> spec_descriptor_matches(
                            pan,
                            data@,
                            j,
                            #[trigger] gts_descriptor_seq(descriptors)[j],
                        ),
                decreases descriptor_count - i,
            {
                let index = GTS_DESCRIPTOR_SIZE * i + 2;
                let gts_desc_info: u8 = data[index + 2];
                let address_value: u16 = (data[index] as u16) | ((data[index + 1] as u16) << 8);
                let direction = GtsDirection::from_bit(gts_direction & (1u8 << (i as u8)) != 0);
                descriptor_vec_push(
                    &mut descriptors,
                    GtsDescriptor {
                        address: ShortAddress::new(pan, address_value),
                        starting_slot: gts_desc_info & 0xF,
                        length: (gts_desc_info & 0x78) >> 3,
                        direction,
                    },
                );
                i = i + 1;
            }
        }
        Ok(Gts { permit, descriptors })
    }
}

#[derive(Debug, Clone, PartialEq, Eq, Structural)]
pub enum GtsDirection {
    Receive,
    Transmit,
}

impl From<bool> for GtsDirection {
    fn from(value: bool) -> (r: Self) {
        GtsDirection::from_bit(value)
    }
}

impl vstd::std_specs::convert::FromSpecImpl<bool> for GtsDirection {
    open spec fn obeys_from_spec() -> bool {
        true
    }

    open spec fn from_spec(v: bool) -> GtsDirection {
        if v {
            GtsDirection::Receive
        } else {
            GtsDirection::Transmit
        }
    }
}

impl GtsDirection {
    fn from_bit(value: bool) -> (r: Self)
        ensures
            r == (if value {
                GtsDirection::Receive
            } else {
                GtsDirection::Transmit
            }),
    {
        match value {
            true => GtsDirection::Receive,
            false => GtsDirection::Transmit,
        }
    }
}

/// Format of a GTS descriptor.
/// Figure 7-11
#[derive(Debug, Clone)]
pub struct GtsDescriptor {
    pub address: ShortAddress,
    pub starting_slot: u8,
    pub length: u8,
    pub direction: GtsDirection,
}

} // verus!
