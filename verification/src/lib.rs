//! Binary codec for IEEE 802.15.4 MAC-layer frames: decodes a byte buffer
//! into a structured, validated frame representation and encodes such a
//! representation back into wire bytes, without relying on a heap for the
//! frame bodies themselves.

use vstd::prelude::*;

pub mod address;
pub mod composer;
pub mod error;
pub mod ieee802154;
pub mod parser;

use crate::composer::Composer;
use crate::error::Error;
use crate::parser::Parser;

verus! {

/// Decode a value from raw bytes with the decoder `P`, tagging any
/// failure as a decode-direction error.
pub fn parse<'a, P: Parser<'a>>(raw: &'a [u8]) -> (r: Result<P::Value, Error>)
    ensures
        r matches Ok(v) ==> P::spec_parse(raw@) == Ok::<P::Value, crate::parser::Error>(v),
        r matches Err(e) ==> (e matches Error::Parser(pe)
            && P::spec_parse(raw@) == Err::<P::Value, crate::parser::Error>(pe)),
{
    match P::parse(raw) {
        Ok(v) => Ok(v),
        Err(e) => Err(Error::Parser(e)),
    }
}

/// Encode a value into owned bytes with the encoder `C`, tagging any
/// failure as an encode-direction error.
pub fn compose<'a, C: Composer<'a>>(input: &'a C::Value) -> (r: Result<Vec<u8>, Error>)
    ensures
        r matches Ok(bytes) ==> C::spec_compose(*input) == Ok::<Seq<u8>, crate::composer::Error>(bytes@),
        r matches Err(e) ==> (e matches Error::Composer(ce)
            && C::spec_compose(*input) == Err::<Seq<u8>, crate::composer::Error>(ce)),
{
    match C::compose(input) {
        Ok(bytes) => Ok(bytes),
        Err(e) => Err(Error::Composer(e)),
    }
}

} // verus!
