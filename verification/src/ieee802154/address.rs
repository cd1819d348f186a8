use vstd::prelude::*;

use crate::address::Address;

verus! {

/// The PAN ID is an ID used to identify a group of devices. An address
/// must be associated with a PAN ID.
#[derive(Debug, Clone, Copy, PartialEq, Eq, PartialOrd, Ord)]
pub struct PanId(u16);

impl Address for PanId {
    type Inner = u16;

    closed spec fn spec_broadcast() -> Self {
        PanId(0xFFFF)
    }

    closed spec fn spec_value(&self) -> u16 {
        self.0
    }

    fn broadcast() -> (r: Self) {
        PanId(0xFFFF)
    }

    fn value(&self) -> (r: u16) {
        self.0
    }
}

impl PanId {
    pub fn new(address: u16) -> (r: Self)
        ensures
            r.spec_value() == address,
    {
        PanId(address)
    }
}

/// The two wire-representable addressing modes.
#[derive(Debug, Clone, Copy, PartialEq, Eq)]
pub enum AddressKind {
    Short(ShortAddress),
    Long(LongAddress),
}

/// A 16-bit device address scoped to a PAN.
#[derive(Debug, Clone, Copy, PartialEq, Eq, PartialOrd, Ord)]
pub struct ShortAddress(PanId, u16);

/// A 64-bit device address scoped to a PAN.
#[derive(Debug, Clone, Copy, PartialEq, Eq, PartialOrd, Ord)]
pub struct LongAddress(PanId, u64);

impl Address for ShortAddress {
    type Inner = u16;

    closed spec fn spec_broadcast() -> Self {
        ShortAddress(PanId::spec_broadcast(), 0xFFFF)
    }

    closed spec fn spec_value(&self) -> u16 {
        self.1
    }

    fn broadcast() -> (r: Self) {
        ShortAddress(PanId::broadcast(), 0xFFFF)
    }

    fn value(&self) -> (r: u16) {
        self.1
    }
}

impl ShortAddress {
    /// The PAN this address is scoped to.
    pub closed spec fn spec_pan_id(&self) -> PanId {
        self.0
    }

    pub fn new(pan: PanId, address: u16) -> (r: Self)
        ensures
            r.spec_pan_id() == pan,
            r.spec_value() == address,
    {
        ShortAddress(pan, address)
    }

    pub fn pan_id(&self) -> (r: PanId)
        ensures
            r == self.spec_pan_id(),
    {
        self.0
    }
}

impl Address for LongAddress {
    type Inner = u64;

    closed spec fn spec_broadcast() -> Self {
        LongAddress(PanId::spec_broadcast(), 0xFFFFFFFF)
    }

    closed spec fn spec_value(&self) -> u64 {
        self.1
    }

    fn broadcast() -> (r: Self) {
        LongAddress(PanId::broadcast(), 0xFFFFFFFF)
    }

    fn value(&self) -> (r: u64) {
        self.1
    }
}

impl LongAddress {
    /// The PAN this address is scoped to.
    pub closed spec fn spec_pan_id(&self) -> PanId {
        self.0
    }

    pub fn new(pan: PanId, address: u64) -> (r: Self)
        ensures
            r.spec_pan_id() == pan,
            r.spec_value() == address,
    {
        LongAddress(pan, address)
    }

    pub fn pan_id(&self) -> (r: PanId)
        ensures
            r == self.spec_pan_id(),
    {
        self.0
    }
}

/// Broadcast sentinels are fixed points of the address model: the
/// broadcast PAN ID carries the all-ones 16-bit value, and the broadcast
/// short and long addresses are scoped to the broadcast PAN.
pub proof fn lemma_broadcast_fixed_points()
    ensures
        PanId::spec_broadcast().spec_value() == 0xFFFFu16,
        ShortAddress::spec_broadcast().spec_pan_id() == PanId::spec_broadcast(),
        ShortAddress::spec_broadcast().spec_value() == 0xFFFFu16,
        LongAddress::spec_broadcast().spec_pan_id() == PanId::spec_broadcast(),
{
}

} // verus!
