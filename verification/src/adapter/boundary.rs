use crate::entity::auth_context::AuthError;
use vstd::prelude::*;
use vstd::std_specs::convert::FromSpecImpl;

verus! {

/// Why a request handled by the controller failed; `E` is the use case's
/// own error.
#[derive(Clone, Debug, PartialEq, Eq)]
pub enum Error<E> {
    ParseIdError,
    ParseInputError(String),
    UsecaseError(E),
    AuthError(AuthError),
}

impl<E> From<AuthError> for Error<E> {
    fn from(err: AuthError) -> (e: Self) {
        Error::AuthError(err)
    }
}

impl<E> FromSpecImpl<AuthError> for Error<E> {
    open spec fn obeys_from_spec() -> bool {
        true
    }

    open spec fn from_spec(err: AuthError) -> Self {
        Error::AuthError(err)
    }
}

} // verus!
