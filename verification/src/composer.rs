use vstd::prelude::*;

verus! {

/// Errors reported while encoding a structured value back into wire bytes.
#[derive(Debug, Clone, Copy, PartialEq, Eq, Structural)]
pub enum Error {
    /// The in-memory value cannot be represented on the wire.
    InvalidHeader,
}

/// Encoder interface: a frame family implements this to turn its
/// structured value back into wire bytes.
pub trait Composer<'a> {
    type Value;

    /// What a conforming encoder produces for the given value.
    spec fn spec_compose(value: Self::Value) -> Result<Seq<u8>, Error>;

    fn compose(value: &'a Self::Value) -> (r: Result<Vec<u8>, Error>)
        ensures
            r matches Ok(bytes) ==> Self::spec_compose(*value) == Ok::<Seq<u8>, Error>(bytes@),
            r matches Err(e) ==> Self::spec_compose(*value) == Err::<Seq<u8>, Error>(e),
    ;
}

} // verus!
