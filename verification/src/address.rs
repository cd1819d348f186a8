use vstd::prelude::*;

verus! {

/// Capability shared by every address type: a spec-defined broadcast
/// sentinel and access to the raw stored value.
pub trait Address: Sized {
    type Inner;

    /// The broadcast sentinel of this address type.
    spec fn spec_broadcast() -> Self;

    /// The raw value stored in this address.
    spec fn spec_value(&self) -> Self::Inner;

    fn broadcast() -> (r: Self)
        ensures
            r == Self::spec_broadcast(),
    ;

    fn value(&self) -> (r: Self::Inner)
        ensures
            r == self.spec_value(),
    ;
}

} // verus!
