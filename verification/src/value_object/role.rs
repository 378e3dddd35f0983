use vstd::prelude::*;

verus! {

/// The role a user holds in the system.
#[derive(Clone, Copy, Debug, PartialEq, Eq, Structural)]
pub enum Role {
    Admin,
    User,
}

} // verus!
