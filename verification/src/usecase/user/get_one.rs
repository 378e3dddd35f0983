//! Reads one user by id.
use crate::entity::auth_strategy::AuthStrategy;
use crate::entity::user::{Id, User};
use crate::gateway::database::user::GetError;
use crate::usecase::command::{Command, Reply, ReplyKind, Step};
use crate::usecase::Usecase;
use vstd::prelude::*;
use vstd::std_specs::convert::FromSpecImpl;

verus! {

#[derive(Clone, Copy, Debug)]
pub struct Request {
    pub id: Id,
}

#[derive(Clone, Debug)]
pub struct Response {
    pub user: User,
}

/// Get one user usecase interactor
pub struct GetOne;

#[derive(Clone, Copy, Debug, PartialEq, Eq, Structural)]
pub enum Error {
    NotFound,
    Repo,
}

pub open spec fn get_failure(err: GetError) -> Error {
    match err {
        GetError::Connection => Error::Repo,
        GetError::NotFound => Error::NotFound,
    }
}

impl From<GetError> for Error {
    fn from(err: GetError) -> (e: Self) {
        match err {
            GetError::Connection => Error::Repo,
            GetError::NotFound => Error::NotFound,
        }
    }
}

impl FromSpecImpl<GetError> for Error {
    open spec fn obeys_from_spec() -> bool {
        true
    }

    open spec fn from_spec(err: GetError) -> Self {
        get_failure(err)
    }
}

/// Where a run stands.
#[derive(Debug)]
pub enum State {
    AwaitingUser,
    Finished,
}

pub open spec fn awaits(state: State) -> Option<ReplyKind> {
    match state {
        State::AwaitingUser => Some(ReplyKind::UserFetched),
        State::Finished => None,
    }
}

impl Usecase for GetOne {
    type Request = Request;
    type Response = Response;
    type Error = Error;
    type State = State;

    /// Admins, and the user the request is about.
    open spec fn strategy(&self) -> AuthStrategy {
        AuthStrategy::AdminAndOwnerOnly
    }

    open spec fn owner_of(&self, req: Request) -> Option<Id> {
        Some(req.id)
    }

    open spec fn awaits(&self, state: State) -> Option<ReplyKind> {
        awaits(state)
    }

    fn new() -> Self {
        GetOne
    }

    fn auth_strategy(&self) -> (strategy: AuthStrategy) {
        AuthStrategy::AdminAndOwnerOnly
    }

    fn extract_owner(&self, req: &Request) -> (owner: Option<Id>) {
        Some(req.id)
    }

    fn awaited(&self, state: &State) -> (kind: Option<ReplyKind>) {
        match state {
            State::AwaitingUser => Some(ReplyKind::UserFetched),
            State::Finished => None,
        }
    }

    /// Loads the user's record.
    fn start(&self, req: Request) -> (r: (State, Step<Response, Error>))
        ensures
            r.0 is AwaitingUser,
            r.1 == Step::<Response, Error>::Run(Command::GetUser { id: req.id }),
    {
        (State::AwaitingUser, Step::Run(Command::GetUser { id: req.id }))
    }

    /// Returns the loaded user, or the load's error.
    fn resume(&self, state: State, reply: Reply) -> (r: (State, Step<Response, Error>))
        ensures
            match (state, reply) {
                (State::AwaitingUser, Reply::UserFetched(loaded)) => {
                    &&& r.0 is Finished
                    &&& r.1 == Step::<Response, Error>::Finish(
                        match loaded {
                            Ok(record) => Ok(Response { user: record.user }),
                            Err(e) => Err(get_failure(e)),
                        },
                    )
                },
                _ => false,
            },
    {
        match state {
            State::AwaitingUser => match reply {
                Reply::UserFetched(Ok(record)) => (
                    State::Finished,
                    Step::Finish(Ok(Response { user: User::from(record) })),
                ),
                Reply::UserFetched(Err(e)) => (State::Finished, Step::Finish(Err(Error::from(e)))),
                _ => {
                    proof {
                        assert(false);
                    }
                    (State::Finished, Step::Finish(Err(Error::Repo)))
                },
            },
            State::Finished => {
                proof {
                    assert(false);
                }
                (State::Finished, Step::Finish(Err(Error::Repo)))
            },
        }
    }
}

} // verus!
