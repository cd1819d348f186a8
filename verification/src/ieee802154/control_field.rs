use vstd::prelude::*;

verus! {

/// The decoded first two bytes of a standard (non-multipurpose,
/// non-fragment, non-extended) frame.
/// Chapter 7.2.2
#[derive(Debug, Clone)]
pub struct StandardControlField {
    frame_kind: FrameKind,
    security_enabled: bool,
    frame_pending: bool,
    ack_required: bool,
    pan_id_compression: bool,
    seq_no_present: bool,
    ie_present: bool,
    version: FrameVersion,
}

const BEACON_VALUE: u8 = 0x0;
const DATA_VALUE: u8 = 0x1;
const ACKNOWLEDGMENT_VALUE: u8 = 0x2;
const MAC_COMMAND_VALUE: u8 = 0x3;
const MULTIPURPOSE_VALUE: u8 = 0x5;
const FRAK_VALUE: u8 = 0x6;
const EXTENDED_VALUE: u8 = 0x7;

/// Different frame type for the first 3 bits of the frame control.
/// Chapter 7.2.2.1
#[derive(Debug, Clone, PartialEq, Eq, Structural)]
pub enum FrameKind {
    Beacon,
    Data,
    Acknowledgment,
    MacCommand,
    MultiPurpose,
    Frak,
    Extended,
}

/// The fixed 3-bit wire code of each frame kind.
pub open spec fn spec_kind_bits(kind: FrameKind) -> u8 {
    match kind {
        FrameKind::Beacon => 0x0,
        FrameKind::Data => 0x1,
        FrameKind::Acknowledgment => 0x2,
        FrameKind::MacCommand => 0x3,
        FrameKind::MultiPurpose => 0x5,
        FrameKind::Frak => 0x6,
        FrameKind::Extended => 0x7,
    }
}

/// The frame kind a wire code decodes to; code 4 is reserved and every
/// code above 7 is out of range, so both are rejected.
pub open spec fn spec_kind_from_byte(value: u8) -> Result<FrameKind, crate::parser::Error> {
    if value == 0x0 {
        Ok(FrameKind::Beacon)
    } else if value == 0x1 {
        Ok(FrameKind::Data)
    } else if value == 0x2 {
        Ok(FrameKind::Acknowledgment)
    } else if value == 0x3 {
        Ok(FrameKind::MacCommand)
    } else if value == 0x5 {
        Ok(FrameKind::MultiPurpose)
    } else if value == 0x6 {
        Ok(FrameKind::Frak)
    } else if value == 0x7 {
        Ok(FrameKind::Extended)
    } else {
        Err(crate::parser::Error::InvalidHeader)
    }
}

impl FrameKind {
    pub fn bits(&self) -> (r: u8)
        ensures
            r == spec_kind_bits(*self),
    {
        match self {
            FrameKind::Beacon => BEACON_VALUE,
            FrameKind::Data => DATA_VALUE,
            FrameKind::Acknowledgment => ACKNOWLEDGMENT_VALUE,
            FrameKind::MacCommand => MAC_COMMAND_VALUE,
            FrameKind::MultiPurpose => MULTIPURPOSE_VALUE,
            FrameKind::Frak => FRAK_VALUE,
            FrameKind::Extended => EXTENDED_VALUE,
        }
    }

    pub fn from_byte(value: u8) -> (r: Result<Self, crate::parser::Error>)
        ensures
            r == spec_kind_from_byte(value),
            r is Ok <==> (value <= 7 && value != 4),
            r matches Ok(kind) ==> spec_kind_bits(kind) == value,
    {
        match value {
            BEACON_VALUE => Ok(FrameKind::Beacon),
            DATA_VALUE => Ok(FrameKind::Data),
            ACKNOWLEDGMENT_VALUE => Ok(FrameKind::Acknowledgment),
            MAC_COMMAND_VALUE => Ok(FrameKind::MacCommand),
            MULTIPURPOSE_VALUE => Ok(FrameKind::MultiPurpose),
            FRAK_VALUE => Ok(FrameKind::Frak),
            EXTENDED_VALUE => Ok(FrameKind::Extended),
            _ => Err(crate::parser::Error::InvalidHeader),
        }
    }
}

impl From<FrameKind> for u8 {
    fn from(value: FrameKind) -> (r: u8) {
        value.bits()
    }
}

impl vstd::std_specs::convert::FromSpecImpl<FrameKind> for u8 {
    open spec fn obeys_from_spec() -> bool {
        true
    }

    open spec fn from_spec(v: FrameKind) -> u8 {
        spec_kind_bits(v)
    }
}

impl TryFrom<u8> for FrameKind {
    type Error = crate::parser::Error;

    fn try_from(value: u8) -> (r: Result<Self, crate::parser::Error>) {
        FrameKind::from_byte(value)
    }
}

impl vstd::std_specs::convert::TryFromSpecImpl<u8> for FrameKind {
    open spec fn obeys_try_from_spec() -> bool {
        true
    }

    open spec fn try_from_spec(v: u8) -> Result<Self, crate::parser::Error> {
        spec_kind_from_byte(v)
    }
}

/// Frame version. Field not present for fragment frame and extended frame.
/// Chapter 7.2.2.10
#[derive(Debug, Clone, PartialEq, Eq, Structural)]
pub enum FrameVersion {
    Ieee802154_2003,
    Ieee802154_2006,
    Ieee802154,
}

const IEEE_2003_STD_VALUE: u8 = 0x0;
const IEEE_2006_STD_VALUE: u8 = 0x1;
const IEEE_STD_VALUE: u8 = 0x02;
const IEEE_MULTIPURPOSE_VALUE: u8 = 0x0;

/// The version a wire code decodes to, by the legality matrix: the four
/// standard kinds accept codes 0..=2, a multipurpose frame accepts only
/// code 0 (mapped to the current version), and fragment and extended
/// frames have no version field at all.
pub open spec fn spec_version_from_byte(kind: FrameKind, value: u8) -> Result<
    FrameVersion,
    crate::parser::Error,
> {
    match kind {
        FrameKind::Beacon | FrameKind::Data | FrameKind::Acknowledgment | FrameKind::MacCommand => {
            if value == 0x0 {
                Ok(FrameVersion::Ieee802154_2003)
            } else if value == 0x1 {
                Ok(FrameVersion::Ieee802154_2006)
            } else if value == 0x2 {
                Ok(FrameVersion::Ieee802154)
            } else {
                Err(crate::parser::Error::InvalidHeader)
            }
        },
        FrameKind::MultiPurpose => {
            if value == 0x0 {
                Ok(FrameVersion::Ieee802154)
            } else {
                Err(crate::parser::Error::InvalidHeader)
            }
        },
        _ => Err(crate::parser::Error::InvalidHeader),
    }
}

/// The wire code a version encodes to for the given kind, by the same
/// legality matrix; the encode direction reports its own error type.
pub open spec fn spec_version_bits(version: FrameVersion, kind: FrameKind) -> Result<
    u8,
    crate::composer::Error,
> {
    match kind {
        FrameKind::Beacon | FrameKind::Data | FrameKind::Acknowledgment | FrameKind::MacCommand => {
            match version {
                FrameVersion::Ieee802154_2003 => Ok(0x0),
                FrameVersion::Ieee802154_2006 => Ok(0x1),
                FrameVersion::Ieee802154 => Ok(0x2),
            }
        },
        FrameKind::MultiPurpose => {
            match version {
                FrameVersion::Ieee802154 => Ok(0x0),
                _ => Err(crate::composer::Error::InvalidHeader),
            }
        },
        _ => Err(crate::composer::Error::InvalidHeader),
    }
}

impl FrameVersion {
    fn from_byte_std(value: u8) -> (r: Result<Self, crate::parser::Error>)
        ensures
            r matches Ok(v) ==> (value == IEEE_2003_STD_VALUE && v == FrameVersion::Ieee802154_2003)
                || (value == IEEE_2006_STD_VALUE && v == FrameVersion::Ieee802154_2006)
                || (value == IEEE_STD_VALUE && v == FrameVersion::Ieee802154),
            r is Err <==> value > 2,
            r is Err ==> r == Err::<FrameVersion, _>(crate::parser::Error::InvalidHeader),
    {
        match value {
            IEEE_2003_STD_VALUE => Ok(FrameVersion::Ieee802154_2003),
            IEEE_2006_STD_VALUE => Ok(FrameVersion::Ieee802154_2006),
            IEEE_STD_VALUE => Ok(FrameVersion::Ieee802154),
            _ => Err(crate::parser::Error::InvalidHeader),
        }
    }

    fn from_byte_multipurpose(value: u8) -> (r: Result<Self, crate::parser::Error>)
        ensures
            r matches Ok(v) ==> value == IEEE_MULTIPURPOSE_VALUE && v == FrameVersion::Ieee802154,
            r is Err <==> value != IEEE_MULTIPURPOSE_VALUE,
            r is Err ==> r == Err::<FrameVersion, _>(crate::parser::Error::InvalidHeader),
    {
        match value {
            IEEE_MULTIPURPOSE_VALUE => Ok(FrameVersion::Ieee802154),
            _ => Err(crate::parser::Error::InvalidHeader),
        }
    }

    /// Returns [`FrameVersion`] depending on the value.
    ///
    /// The frame kind is needed because the frame version bits change
    /// according to the frame type.
    ///
    /// # Error
    ///
    /// If the value is invalid or the frame type does not have a version
    /// field, returns `InvalidHeader`.
    pub fn from_byte(kind: FrameKind, value: u8) -> (r: Result<Self, crate::parser::Error>)
        ensures
            r == spec_version_from_byte(kind, value),
    {
        match kind {
            FrameKind::Beacon
            | FrameKind::Data
            | FrameKind::Acknowledgment
            | FrameKind::MacCommand => Self::from_byte_std(value),
            FrameKind::MultiPurpose => Self::from_byte_multipurpose(value),
            _ => Err(crate::parser::Error::InvalidHeader),
        }
    }

    fn bits_std(&self) -> (r: u8)
        ensures
            r == (match *self {
                FrameVersion::Ieee802154_2003 => IEEE_2003_STD_VALUE,
                FrameVersion::Ieee802154_2006 => IEEE_2006_STD_VALUE,
                FrameVersion::Ieee802154 => IEEE_STD_VALUE,
            }),
    {
        match self {
            FrameVersion::Ieee802154_2003 => IEEE_2003_STD_VALUE,
            FrameVersion::Ieee802154_2006 => IEEE_2006_STD_VALUE,
            FrameVersion::Ieee802154 => IEEE_STD_VALUE,
        }
    }

    fn bits_multipurpose(&self) -> (r: Result<u8, crate::composer::Error>)
        ensures
            r == (match *self {
                FrameVersion::Ieee802154 => Ok::<u8, crate::composer::Error>(
                    IEEE_MULTIPURPOSE_VALUE,
                ),
                _ => Err::<u8, crate::composer::Error>(crate::composer::Error::InvalidHeader),
            }),
    {
        match self {
            FrameVersion::Ieee802154 => Ok(IEEE_MULTIPURPOSE_VALUE),
            _ => Err(crate::composer::Error::InvalidHeader),
        }
    }

    /// Returns bits associated with the version.
    ///
    /// # Errors
    ///
    /// If the frame kind does not contain the version provided, an error is
    /// returned.
    pub fn bits(&self, kind: FrameKind) -> (r: Result<u8, crate::composer::Error>)
        ensures
            r == spec_version_bits(*self, kind),
    {
        match kind {
            FrameKind::Beacon
            | FrameKind::Data
            | FrameKind::Acknowledgment
            | FrameKind::MacCommand => Ok(self.bits_std()),
            FrameKind::MultiPurpose => self.bits_multipurpose(),
            _ => Err(crate::composer::Error::InvalidHeader),
        }
    }
}

/// Every (kind, version) pair the encode direction accepts decodes back
/// to the same version, and an encode failure is always `InvalidHeader`.
pub proof fn lemma_version_encode_decode(kind: FrameKind, version: FrameVersion)
    ensures
        spec_version_bits(version, kind) matches Ok(code) ==> spec_version_from_byte(kind, code)
            == Ok::<FrameVersion, crate::parser::Error>(version),
        spec_version_bits(version, kind) is Err ==> spec_version_bits(version, kind) == Err::<
            u8,
            crate::composer::Error,
        >(crate::composer::Error::InvalidHeader),
{
}

/// Every (kind, code) pair the decode direction accepts encodes back to
/// the same code, and a decode failure is always `InvalidHeader`.
pub proof fn lemma_version_decode_encode(kind: FrameKind, value: u8)
    ensures
        spec_version_from_byte(kind, value) matches Ok(version) ==> spec_version_bits(version, kind)
            == Ok::<u8, crate::composer::Error>(value),
        spec_version_from_byte(kind, value) is Err ==> spec_version_from_byte(kind, value) == Err::<
            FrameVersion,
            crate::parser::Error,
        >(crate::parser::Error::InvalidHeader),
{
}

} // verus!
