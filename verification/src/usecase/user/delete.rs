//! Deletes a user by id.
use crate::entity::auth_strategy::AuthStrategy;
use crate::entity::user::Id;
use crate::gateway::database::user::DeleteError;
use crate::usecase::command::{Command, Reply, ReplyKind, Step};
use crate::usecase::Usecase;
use vstd::prelude::*;
use vstd::std_specs::convert::FromSpecImpl;

verus! {

#[derive(Clone, Copy, Debug)]
pub struct Request {
    pub id: Id,
}

#[derive(Clone, Copy, Debug, PartialEq, Eq)]
pub struct Response;

/// Delete a user by ID usecase interactor
pub struct Delete;

#[derive(Clone, Copy, Debug, PartialEq, Eq, Structural)]
pub enum Error {
    NotFound,
    Repo,
}

pub open spec fn delete_failure(err: DeleteError) -> Error {
    match err {
        DeleteError::NotFound => Error::NotFound,
        DeleteError::Connection => Error::Repo,
    }
}

impl From<DeleteError> for Error {
    fn from(err: DeleteError) -> (e: Self) {
        match err {
            DeleteError::NotFound => Error::NotFound,
            DeleteError::Connection => Error::Repo,
        }
    }
}

impl FromSpecImpl<DeleteError> for Error {
    open spec fn obeys_from_spec() -> bool {
        true
    }

    open spec fn from_spec(err: DeleteError) -> Self {
        delete_failure(err)
    }
}

/// Where a run stands.
#[derive(Debug)]
pub enum State {
    AwaitingDeletion,
    Finished,
}

pub open spec fn awaits(state: State) -> Option<ReplyKind> {
    match state {
        State::AwaitingDeletion => Some(ReplyKind::UserDeleted),
        State::Finished => None,
    }
}

impl Usecase for Delete {
    type Request = Request;
    type Response = Response;
    type Error = Error;
    type State = State;

    open spec fn strategy(&self) -> AuthStrategy {
        AuthStrategy::AdminOnly
    }

    open spec fn owner_of(&self, req: Request) -> Option<Id> {
        None
    }

    open spec fn awaits(&self, state: State) -> Option<ReplyKind> {
        awaits(state)
    }

    fn new() -> Self {
        Delete
    }

    fn auth_strategy(&self) -> (strategy: AuthStrategy) {
        AuthStrategy::AdminOnly
    }

    fn extract_owner(&self, req: &Request) -> (owner: Option<Id>) {
        None
    }

    fn awaited(&self, state: &State) -> (kind: Option<ReplyKind>) {
        match state {
            State::AwaitingDeletion => Some(ReplyKind::UserDeleted),
            State::Finished => None,
        }
    }

    /// Deletes the user.
    fn start(&self, req: Request) -> (r: (State, Step<Response, Error>))
        ensures
            r.0 is AwaitingDeletion,
            r.1 == Step::<Response, Error>::Run(Command::DeleteUser { id: req.id }),
    {
        (State::AwaitingDeletion, Step::Run(Command::DeleteUser { id: req.id }))
    }

    /// Ends with the deletion's outcome.
    fn resume(&self, state: State, reply: Reply) -> (r: (State, Step<Response, Error>))
        ensures
            match (state, reply) {
                (State::AwaitingDeletion, Reply::UserDeleted(deleted)) => {
                    &&& r.0 is Finished
                    &&& r.1 == Step::<Response, Error>::Finish(
                        match deleted {
                            Ok(_) => Ok(Response),
                            Err(e) => Err(delete_failure(e)),
                        },
                    )
                },
                _ => false,
            },
    {
        match state {
            State::AwaitingDeletion => match reply {
                Reply::UserDeleted(Ok(_)) => (State::Finished, Step::Finish(Ok(Response))),
                Reply::UserDeleted(Err(e)) => (State::Finished, Step::Finish(Err(Error::from(e)))),
                _ => {
                    proof {
                        assert(false);
                    }
                    (State::Finished, Step::Finish(Err(Error::Repo)))
                },
            },
            State::Finished => {
                proof {
                    assert(false);
                }
                (State::Finished, Step::Finish(Err(Error::Repo)))
            },
        }
    }
}

} // verus!
