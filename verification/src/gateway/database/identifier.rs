use vstd::prelude::*;

verus! {

/// The identifier service could not generate a new entity ID.
#[derive(Clone, Copy, Debug, PartialEq, Eq, Structural)]
pub struct NewIdError;

} // verus!
