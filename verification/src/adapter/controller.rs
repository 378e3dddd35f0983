//! The controller's handling of a request: the input is ingested, the
//! caller's auth context read from its token, the request authorized, the use
//! case run, and the outcome presented.
use crate::adapter::boundary::Error;
use crate::entity::auth_context::{AuthContext, AuthError};
use crate::usecase::{authorization, authorization_defined, Usecase};
use std::marker::PhantomData;
use std::sync::Arc;
use vstd::prelude::*;

verus! {

/// `std::sync::Arc::clone`: another pointer to the same allocation, so to
/// the same value.
#[verifier::external_body]
fn share<T>(value: &Arc<T>) -> (shared: Arc<T>)
    ensures
        shared == *value,
{
    Arc::clone(value)
}

/// Handles requests for use cases with the dependencies `D` and the
/// boundary `B` that ingests inputs and presents outcomes.
pub struct Controller<D, B> {
    dependency_provider: Arc<D>,
    phantom: PhantomData<(B, D)>,
}

/// What the controller does next with a request.
#[derive(Debug)]
pub enum Handling<Req, Resp, E> {
    /// Read the caller's auth context from `token`, then authorize `req`.
    ExtractAuth { req: Req, token: String },
    /// Run the use case on `req`.
    Execute { req: Req },
    /// Present the outcome.
    Present { result: Result<Resp, Error<E>> },
}

/// The handling of an ingested request once the caller's auth context is
/// known: an authorized request is run, any other is presented as
/// `Unauthorized`.
pub open spec fn authorized_handling<U: Usecase>(
    usecase: U,
    req: U::Request,
    auth_context: Option<AuthContext>,
) -> Handling<U::Request, U::Response, U::Error> {
    if authorization(usecase.strategy(), usecase.owner_of(req), auth_context) is Ok {
        Handling::Execute { req }
    } else {
        Handling::Present { result: Err(Error::AuthError(AuthError::Unauthorized)) }
    }
}

impl<D, B> Controller<D, B> {
    pub closed spec fn spec_dependency_provider(&self) -> Arc<D> {
        self.dependency_provider
    }

    pub fn new(dependency_provider: Arc<D>) -> (controller: Self)
        ensures
            controller.spec_dependency_provider() == dependency_provider,
    {
        Controller { dependency_provider, phantom: PhantomData }
    }

    pub fn dependency_provider(&self) -> (dependency_provider: Arc<D>)
        ensures
            dependency_provider == self.spec_dependency_provider(),
    {
        share(&self.dependency_provider)
    }

    /// After the input was ingested: a failed ingestion is presented as it
    /// is; with a token, the auth context is read from it; without one the
    /// request is authorized with no auth context.
    pub fn after_ingest<U: Usecase>(
        &self,
        usecase: &U,
        ingested: Result<U::Request, Error<U::Error>>,
        token: Option<String>,
    ) -> (handling: Handling<U::Request, U::Response, U::Error>)
        ensures
            match ingested {
                Err(err) => handling == Handling::<U::Request, U::Response, U::Error>::Present {
                    result: Err(err),
                },
                Ok(req) => match token {
                    Some(token) => handling == Handling::<
                        U::Request,
                        U::Response,
                        U::Error,
                    >::ExtractAuth { req, token },
                    None => handling == authorized_handling(*usecase, req, None),
                },
            },
    {
        match ingested {
            Err(err) => Handling::Present { result: Err(err) },
            Ok(req) => match token {
                Some(token) => Handling::ExtractAuth { req, token },
                None => self.after_auth(usecase, req, None),
            },
        }
    }

    /// Authorizes the request with the caller's auth context.
    pub fn after_auth<U: Usecase>(
        &self,
        usecase: &U,
        req: U::Request,
        auth_context: Option<AuthContext>,
    ) -> (handling: Handling<U::Request, U::Response, U::Error>)
        requires
            authorization_defined(usecase.strategy(), usecase.owner_of(req), auth_context),
        ensures
            handling == authorized_handling(*usecase, req, auth_context),
    {
        if usecase.authorize(&req, auth_context).is_err() {
            Handling::Present { result: Err(Error::AuthError(AuthError::Unauthorized)) }
        } else {
            Handling::Execute { req }
        }
    }

    /// The outcome of a run, as it is presented: the use case's error becomes
    /// `UsecaseError`.
    pub fn after_execution<Resp, E>(&self, result: Result<Resp, E>) -> (presented: Result<
        Resp,
        Error<E>,
    >)
        ensures
            presented == match result {
                Ok(resp) => Ok::<Resp, Error<E>>(resp),
                Err(err) => Err(Error::UsecaseError(err)),
            },
    {
        match result {
            Ok(resp) => Ok(resp),
            Err(err) => Err(Error::UsecaseError(err)),
        }
    }
}

/// A request that authorization refuses is never run: the controller
/// presents `Unauthorized` instead, and runs the request exactly when it is
/// authorized.
pub proof fn lemma_refused_requests_are_not_run<U: Usecase>(
    usecase: U,
    req: U::Request,
    auth_context: Option<AuthContext>,
)
    ensures
        authorized_handling(usecase, req, auth_context) is Execute <==> authorization(
            usecase.strategy(),
            usecase.owner_of(req),
            auth_context,
        ) is Ok,
        authorized_handling(usecase, req, auth_context) is Present ==> authorized_handling(
            usecase,
            req,
            auth_context,
        )->result == Err::<U::Response, Error<U::Error>>(Error::AuthError(AuthError::Unauthorized)),
{
}

} // verus!
