use vstd::prelude::*;

verus! {

/// Who may run a use case.
#[derive(Clone, Copy, Debug, PartialEq, Eq, Structural)]
pub enum AuthStrategy {
    /// Allow access only to admin
    AdminOnly,
    /// Allow access only to owner and admin
    AdminAndOwnerOnly,
    /// Allow access to anyone
    Public,
}

} // verus!
