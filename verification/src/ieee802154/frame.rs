use vstd::prelude::*;

use crate::ieee802154::address::AddressKind;

verus! {

const BEACON_VALUE: u8 = 0x0;
const DATA_VALUE: u8 = 0x1;
const ACKNOWLEDGMENT_VALUE: u8 = 0x2;
const MAC_COMMAND_VALUE: u8 = 0x3;
const MULTIPURPOSE_VALUE: u8 = 0x5;
const FRAK_VALUE: u8 = 0x6;
const EXTENDED_VALUE: u8 = 0x7;

/// Different frame type for the first 3 bits of the frame control.
/// Chapter 7.2.2.1
#[derive(Debug, Clone, PartialEq, Eq, Structural)]
pub enum FrameKind {
    Beacon,
    Data,
    Acknowledgment,
    MacCommand,
    MultiPurpose,
    Frak,
    Extended,
}

/// The fixed 3-bit wire code of each frame kind.
pub open spec fn spec_kind_bits(kind: FrameKind) -> u8 {
    match kind {
        FrameKind::Beacon => 0x0,
        FrameKind::Data => 0x1,
        FrameKind::Acknowledgment => 0x2,
        FrameKind::MacCommand => 0x3,
        FrameKind::MultiPurpose => 0x5,
        FrameKind::Frak => 0x6,
        FrameKind::Extended => 0x7,
    }
}

/// The frame kind a wire code decodes to; code 4 is reserved and every
/// code above 7 is out of range, so both are rejected.
pub open spec fn spec_kind_from_byte(value: u8) -> Result<FrameKind, crate::parser::Error> {
    if value == 0x0 {
        Ok(FrameKind::Beacon)
    } else if value == 0x1 {
        Ok(FrameKind::Data)
    } else if value == 0x2 {
        Ok(FrameKind::Acknowledgment)
    } else if value == 0x3 {
        Ok(FrameKind::MacCommand)
    } else if value == 0x5 {
        Ok(FrameKind::MultiPurpose)
    } else if value == 0x6 {
        Ok(FrameKind::Frak)
    } else if value == 0x7 {
        Ok(FrameKind::Extended)
    } else {
        Err(crate::parser::Error::InvalidHeader)
    }
}

impl FrameKind {
    pub fn bits(&self) -> (r: u8)
        ensures
            r == spec_kind_bits(*self),
    {
        match self {
            FrameKind::Beacon => BEACON_VALUE,
            FrameKind::Data => DATA_VALUE,
            FrameKind::Acknowledgment => ACKNOWLEDGMENT_VALUE,
            FrameKind::MacCommand => MAC_COMMAND_VALUE,
            FrameKind::MultiPurpose => MULTIPURPOSE_VALUE,
            FrameKind::Frak => FRAK_VALUE,
            FrameKind::Extended => EXTENDED_VALUE,
        }
    }

    pub fn from_byte(value: u8) -> (r: Result<Self, crate::parser::Error>)
        ensures
            r == spec_kind_from_byte(value),
            r is Ok <==> (value <= 7 && value != 4),
            r matches Ok(kind) ==> spec_kind_bits(kind) == value,
    {
        match value {
            BEACON_VALUE => Ok(FrameKind::Beacon),
            DATA_VALUE => Ok(FrameKind::Data),
            ACKNOWLEDGMENT_VALUE => Ok(FrameKind::Acknowledgment),
            MAC_COMMAND_VALUE => Ok(FrameKind::MacCommand),
            MULTIPURPOSE_VALUE => Ok(FrameKind::MultiPurpose),
            FRAK_VALUE => Ok(FrameKind::Frak),
            EXTENDED_VALUE => Ok(FrameKind::Extended),
            _ => Err(crate::parser::Error::InvalidHeader),
        }
    }
}

impl From<FrameKind> for u8 {
    fn from(value: FrameKind) -> (r: u8) {
        value.bits()
    }
}

impl vstd::std_specs::convert::FromSpecImpl<FrameKind> for u8 {
    open spec fn obeys_from_spec() -> bool {
        true
    }

    open spec fn from_spec(v: FrameKind) -> u8 {
        spec_kind_bits(v)
    }
}

impl TryFrom<u8> for FrameKind {
    type Error = crate::parser::Error;

    fn try_from(value: u8) -> (r: Result<Self, crate::parser::Error>) {
        FrameKind::from_byte(value)
    }
}

impl vstd::std_specs::convert::TryFromSpecImpl<u8> for FrameKind {
    open spec fn obeys_try_from_spec() -> bool {
        true
    }

    open spec fn try_from_spec(v: u8) -> Result<Self, crate::parser::Error> {
        spec_kind_from_byte(v)
    }
}

/// General frame
#[derive(Debug, Clone)]
pub struct Frame<'a> {
    pub header: MacHeader,
    pub payload: &'a [u8],
}

/// MAC Header (MHR) of a frame
#[derive(Debug, Clone)]
pub struct MacHeader {
    pub control_field: ControlField,
    pub src_addr: Option<AddressKind>,
    pub dst_addr: Option<AddressKind>,
}

#[derive(Debug, Clone)]
pub struct StandardControlField {
    frame_kind: FrameKind,
}

/// Control field. Common for all frame type except multipurpose frame,
/// fragment frame and extended frame.
/// Chapter 7.2.2
#[derive(Debug, Clone)]
pub enum ControlField {
    Standard(StandardControlField),
}

} // verus!
