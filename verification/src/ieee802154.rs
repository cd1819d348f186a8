use vstd::prelude::*;

pub mod address;
pub mod beacon;
pub mod control_field;
pub mod frame;
pub mod gts;
pub mod security_header;

use crate::ieee802154::beacon::BeaconFrame;

verus! {

/// Marker type for the IEEE 802.15.4 MAC frame family.
pub struct Ieee802154 {}

/// General kind of frames. Only the beacon frame currently carries a
/// decoded body; the remaining kinds are extension points for
/// kind-specific codecs.
#[derive(Debug)]
pub enum Frame<'a> {
    Beacon(BeaconFrame<'a>),
    EnhBeacon,
    Data,
    Acknowledgment,
    EnhAcknowledgment,
    MacCommand,
    MultiPurpose,
    Frak,
    Extended,
}

} // verus!
