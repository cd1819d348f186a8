use vstd::prelude::*;

verus! {

/// Crate-level error: tags which direction (encode or decode) failed
/// without discarding the specific kind.
#[derive(Debug, Clone, Copy, PartialEq, Eq, Structural)]
pub enum Error {
    Composer(crate::composer::Error),
    Parser(crate::parser::Error),
}

} // verus!
