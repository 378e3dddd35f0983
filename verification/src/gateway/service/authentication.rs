use vstd::prelude::*;

verus! {

/// What an authentication token asserts: its subject and expiry.
#[derive(Clone, Debug)]
pub struct Claims {
    pub sub: String,
    pub exp: usize,
}

#[derive(Clone, Copy, Debug, PartialEq, Eq, Structural)]
pub enum AuthenticationServiceError {
    TokenExpired,
    ClaimsRetrievalFailed,
    InvalidToken,
}

/// Checks an authentication token.
pub trait AuthenticationService {
    fn authenticate(&self, token: String) -> Result<Claims, AuthenticationServiceError>;
}

} // verus!
