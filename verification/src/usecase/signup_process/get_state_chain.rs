//! Reads every stored state of a signup process.
use crate::entity::auth_strategy::AuthStrategy;
use crate::entity::signup_process::Id;
use crate::entity::user::Id as UserId;
use crate::gateway::database::signup_process::{GetError, Record};
use crate::usecase::command::{Command, Reply, ReplyKind, Step};
use crate::usecase::Usecase;
use vstd::prelude::*;
use vstd::std_specs::convert::FromSpecImpl;

verus! {

#[derive(Clone, Copy, Debug)]
pub struct Request {
    pub id: Id,
}

#[derive(Clone, Debug)]
pub struct Response {
    pub state_chain: Vec<Record>,
}

pub struct GetStateChain;

#[derive(Clone, Copy, Debug, PartialEq, Eq)]
pub enum Error {
    NotFound(Id),
    IncorrectState(Id),
    Repo,
}

/// The error for a failed load of the process `id`.
pub open spec fn load_failure(err: GetError, id: Id) -> Error {
    match err {
        GetError::NotFound => Error::NotFound(id),
        GetError::IncorrectState => Error::IncorrectState(id),
        GetError::Connection => Error::Repo,
    }
}

impl From<(GetError, Id)> for Error {
    fn from(value: (GetError, Id)) -> (e: Self) {
        let (err, id) = value;
        match err {
            GetError::NotFound => Error::NotFound(id),
            GetError::IncorrectState => Error::IncorrectState(id),
            GetError::Connection => Error::Repo,
        }
    }
}

impl FromSpecImpl<(GetError, Id)> for Error {
    open spec fn obeys_from_spec() -> bool {
        true
    }

    open spec fn from_spec(value: (GetError, Id)) -> Self {
        load_failure(value.0, value.1)
    }
}

/// Where a run stands.
#[derive(Debug)]
pub enum State {
    /// Loading the states of the process `id`.
    AwaitingChain { id: Id },
    Finished,
}

pub open spec fn awaits(state: State) -> Option<ReplyKind> {
    match state {
        State::AwaitingChain { .. } => Some(ReplyKind::SignupStateChain),
        State::Finished => None,
    }
}

impl Usecase for GetStateChain {
    type Request = Request;
    type Response = Response;
    type Error = Error;
    type State = State;

    open spec fn strategy(&self) -> AuthStrategy {
        AuthStrategy::AdminOnly
    }

    open spec fn owner_of(&self, req: Request) -> Option<UserId> {
        None
    }

    open spec fn awaits(&self, state: State) -> Option<ReplyKind> {
        awaits(state)
    }

    fn new() -> Self {
        GetStateChain
    }

    fn auth_strategy(&self) -> (strategy: AuthStrategy) {
        AuthStrategy::AdminOnly
    }

    fn extract_owner(&self, req: &Request) -> (owner: Option<UserId>) {
        None
    }

    fn awaited(&self, state: &State) -> (kind: Option<ReplyKind>) {
        match state {
            State::AwaitingChain { .. } => Some(ReplyKind::SignupStateChain),
            State::Finished => None,
        }
    }

    /// Loads the states of the process.
    fn start(&self, req: Request) -> (r: (State, Step<Response, Error>))
        ensures
            r.0 == (State::AwaitingChain { id: req.id }),
            r.1 == Step::<Response, Error>::Run(Command::GetSignupStateChain { id: req.id }),
    {
        (State::AwaitingChain { id: req.id }, Step::Run(Command::GetSignupStateChain { id: req.id }))
    }

    /// Returns the loaded states as they came, or the load's error.
    fn resume(&self, state: State, reply: Reply) -> (r: (State, Step<Response, Error>))
        ensures
            match (state, reply) {
                (State::AwaitingChain { id }, Reply::SignupStateChain(loaded)) => {
                    &&& r.0 is Finished
                    &&& r.1 == Step::<Response, Error>::Finish(
                        match loaded {
                            Ok(state_chain) => Ok(Response { state_chain }),
                            Err(e) => Err(load_failure(e, id)),
                        },
                    )
                },
                _ => false,
            },
    {
        match state {
            State::AwaitingChain { id } => match reply {
                Reply::SignupStateChain(Ok(state_chain)) => (
                    State::Finished,
                    Step::Finish(Ok(Response { state_chain })),
                ),
                Reply::SignupStateChain(Err(e)) => (
                    State::Finished,
                    Step::Finish(Err(Error::from((e, id)))),
                ),
                _ => {
                    proof {
                        assert(false);
                    }
                    (State::Finished, Step::Finish(Err(Error::Repo)))
                },
            },
            State::Finished => {
                proof {
                    assert(false);
                }
                (State::Finished, Step::Finish(Err(Error::Repo)))
            },
        }
    }
}

} // verus!
