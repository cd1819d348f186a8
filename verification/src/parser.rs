use vstd::prelude::*;

verus! {

/// Errors reported while decoding wire bytes into structured values.
#[derive(Debug, Clone, Copy, PartialEq, Eq, Structural)]
pub enum Error {
    /// The bytes do not form a structurally legal header.
    InvalidHeader,
    /// The body is inconsistent with the length its own header implies.
    InvalidPayload,
}

/// Decoder interface: a frame family implements this to turn raw wire
/// bytes into its structured value.
pub trait Parser<'a> {
    type Value;

    /// What a conforming decoder returns for the given bytes.
    spec fn spec_parse(raw: Seq<u8>) -> Result<Self::Value, Error>;

    fn parse(raw: &'a [u8]) -> (r: Result<Self::Value, Error>)
        ensures
            r == Self::spec_parse(raw@),
    ;
}

} // verus!
