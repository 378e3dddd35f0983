//! Marks a signup process whose completion window has passed: the process,
//! in `EmailVerified`, is stored failed with `CompletionTimedOut`.
use crate::entity::auth_strategy::AuthStrategy;
use crate::entity::signup_process::{
    EmailVerified, Error as SignupProcessError, Failed, Id, };
use crate::entity::user::Id as UserId;
use crate::gateway::repository::signup_process::{GetError, Record, SaveError};
use crate::usecase::command::{
    awaited_after, saves_stored_signup_state, Command, Reply, ReplyKind, Step,
};
use crate::usecase::Usecase;
use std::sync::Arc;
use vstd::prelude::*;
use vstd::std_specs::convert::FromSpecImpl;

verus! {

#[derive(Clone, Copy, Debug)]
pub struct Request {
    pub id: Id,
}

#[derive(Clone, Copy, Debug)]
pub struct Response {
    pub id: Id,
}

pub struct CompletionTimedOut;

#[derive(Clone, Copy, Debug, PartialEq, Eq)]
pub enum Error {
    NotFound(Id),
    Repo,
}

/// The error for a failed load of the process `id`.
pub open spec fn load_failure(err: GetError, id: Id) -> Error {
    match err {
        GetError::NotFound => Error::NotFound(id),
        GetError::Connection => Error::Repo,
    }
}

impl From<(GetError, Id)> for Error {
    fn from(value: (GetError, Id)) -> (e: Self) {
        let (err, id) = value;
        match err {
            GetError::NotFound => Error::NotFound(id),
            GetError::Connection => Error::Repo,
        }
    }
}

impl FromSpecImpl<(GetError, Id)> for Error {
    open spec fn obeys_from_spec() -> bool {
        true
    }

    open spec fn from_spec(value: (GetError, Id)) -> Self {
        load_failure(value.0, value.1)
    }
}

impl From<SaveError> for Error {
    fn from(err: SaveError) -> (e: Self) {
        match err {
            SaveError::Connection => Error::Repo,
        }
    }
}

impl FromSpecImpl<SaveError> for Error {
    open spec fn obeys_from_spec() -> bool {
        true
    }

    open spec fn from_spec(err: SaveError) -> Self {
        Error::Repo
    }
}

/// Where a run stands.
#[derive(Debug)]
pub enum State {
    /// Loading the latest state of the process `id`.
    AwaitingRecord { id: Id },
    /// Storing the failed process.
    AwaitingSave { id: Id },
    Finished,
}

pub open spec fn awaits(state: State) -> Option<ReplyKind> {
    match state {
        State::AwaitingRecord { .. } => Some(ReplyKind::StoredSignupState),
        State::AwaitingSave { .. } => Some(ReplyKind::StoredSignupStateSaved),
        State::Finished => None,
    }
}

impl CompletionTimedOut {
    fn on_record(id: Id, loaded: Result<Record, GetError>) -> (r: (State, Step<Response, Error>))
        ensures
            awaits(r.0) == awaited_after(r.1),
            match loaded {
                Err(e) => r.0 is Finished && r.1 == Step::<Response, Error>::Finish(
                    Err(load_failure(e, id)),
                ),
                Ok(record) => if record.state is EmailVerified {
                    &&& r.0 == (State::AwaitingSave { id })
                    &&& saves_stored_signup_state(
                        r.1,
                        record.id,
                        crate::entity::signup_process::SignupStateEnum::Failed {
                            previous_state: Arc::new(record.state),
                            error: SignupProcessError::CompletionTimedOut,
                        },
                    )
                } else {
                    r.0 is Finished && r.1 == Step::<Response, Error>::Finish(
                        Err(Error::NotFound(id)),
                    )
                },
            },
    {
        match loaded {
            Err(e) => (State::Finished, Step::Finish(Err(Error::from((e, id))))),
            Ok(record) => match record.into_process::<EmailVerified>() {
                Err(e) => (State::Finished, Step::Finish(Err(Error::from((e, id))))),
                Ok(process) => {
                    let failed = process.fail(SignupProcessError::CompletionTimedOut);
                    (
                        State::AwaitingSave { id },
                        Step::Run(
                            Command::SaveStoredSignupState { record: Record::from_process(failed) },
                        ),
                    )
                },
            },
        }
    }
}

impl Usecase for CompletionTimedOut {
    type Request = Request;
    type Response = Response;
    type Error = Error;
    type State = State;

    open spec fn strategy(&self) -> AuthStrategy {
        AuthStrategy::AdminOnly
    }

    open spec fn owner_of(&self, req: Request) -> Option<UserId> {
        None
    }

    open spec fn awaits(&self, state: State) -> Option<ReplyKind> {
        awaits(state)
    }

    fn new() -> Self {
        CompletionTimedOut
    }

    fn auth_strategy(&self) -> (strategy: AuthStrategy) {
        AuthStrategy::AdminOnly
    }

    fn extract_owner(&self, req: &Request) -> (owner: Option<UserId>) {
        None
    }

    fn awaited(&self, state: &State) -> (kind: Option<ReplyKind>) {
        match state {
            State::AwaitingRecord { .. } => Some(ReplyKind::StoredSignupState),
            State::AwaitingSave { .. } => Some(ReplyKind::StoredSignupStateSaved),
            State::Finished => None,
        }
    }

    /// Loads the latest state of the process.
    fn start(&self, req: Request) -> (r: (State, Step<Response, Error>))
        ensures
            r.0 == (State::AwaitingRecord { id: req.id }),
            r.1 == Step::<Response, Error>::Run(Command::GetStoredSignupState { id: req.id }),
    {
        (State::AwaitingRecord { id: req.id }, Step::Run(Command::GetStoredSignupState { id: req.id }))
    }

    /// A process in `EmailVerified` is stored failed with
    /// `CompletionTimedOut`; a process in another state ends the run with
    /// `NotFound`, as does a failed store; a failed load ends it with its
    /// error.
    fn resume(&self, state: State, reply: Reply) -> (r: (State, Step<Response, Error>))
        ensures
            match (state, reply) {
                (State::AwaitingRecord { id }, Reply::StoredSignupState(loaded)) => match loaded {
                    Err(e) => r.0 is Finished && r.1 == Step::<Response, Error>::Finish(
                        Err(load_failure(e, id)),
                    ),
                    Ok(record) => if record.state is EmailVerified {
                        &&& r.0 == (State::AwaitingSave { id })
                        &&& saves_stored_signup_state(
                            r.1,
                            record.id,
                            crate::entity::signup_process::SignupStateEnum::Failed {
                                previous_state: Arc::new(record.state),
                                error: SignupProcessError::CompletionTimedOut,
                            },
                        )
                    } else {
                        r.0 is Finished && r.1 == Step::<Response, Error>::Finish(
                            Err(Error::NotFound(id)),
                        )
                    },
                },
                (State::AwaitingSave { id }, Reply::StoredSignupStateSaved(saved)) => {
                    &&& r.0 is Finished
                    &&& r.1 == Step::<Response, Error>::Finish(
                        match saved {
                            Ok(_) => Ok(Response { id }),
                            Err(_) => Err(Error::NotFound(id)),
                        },
                    )
                },
                _ => false,
            },
    {
        match state {
            State::AwaitingRecord { id } => match reply {
                Reply::StoredSignupState(loaded) => Self::on_record(id, loaded),
                _ => {
                    proof {
                        assert(false);
                    }
                    (State::Finished, Step::Finish(Err(Error::Repo)))
                },
            },
            State::AwaitingSave { id } => match reply {
                Reply::StoredSignupStateSaved(Ok(_)) => (
                    State::Finished,
                    Step::Finish(Ok(Response { id })),
                ),
                Reply::StoredSignupStateSaved(Err(_)) => (
                    State::Finished,
                    Step::Finish(Err(Error::NotFound(id))),
                ),
                _ => {
                    proof {
                        assert(false);
                    }
                    (State::Finished, Step::Finish(Err(Error::Repo)))
                },
            },
            State::Finished => {
                proof {
                    assert(false);
                }
                (State::Finished, Step::Finish(Err(Error::Repo)))
            },
        }
    }
}

} // verus!
