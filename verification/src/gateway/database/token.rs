use vstd::prelude::*;

verus! {

#[derive(Clone, Copy, Debug, PartialEq, Eq, Structural)]
pub enum GenError {
    Connection,
}

#[derive(Clone, Copy, Debug, PartialEq, Eq, Structural)]
pub enum VerifyError {
    NotFound,
    Connection,
    Mismatch,
    TokenExpired,
}

#[derive(Clone, Copy, Debug, PartialEq, Eq, Structural)]
pub enum ExtendError {
    Connection,
    NotFound,
}

/// A generated verification token.
#[derive(Clone, Debug)]
pub struct Record {
    pub token: String,
}

} // verus!
