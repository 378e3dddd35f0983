//! Logs a user in by name and password and hands out an auth token.
use crate::entity::auth_context::AuthContext;
use crate::entity::auth_strategy::AuthStrategy;
use crate::entity::user::{Id, Password, UserName};
use crate::gateway::database::user::{GetError, SaveError};
use crate::usecase::command::{Command, Reply, ReplyKind, Step};
use crate::usecase::Usecase;
use vstd::prelude::*;
use vstd::std_specs::convert::FromSpecImpl;

verus! {

#[derive(Clone, Debug)]
pub struct Request {
    pub username: String,
    pub password: String,
}

#[derive(Clone, Debug)]
pub struct Response {
    pub user_id: Id,
    pub token: String,
}

pub struct Login;

#[derive(Clone, Debug, PartialEq, Eq)]
pub enum Error {
    NotFound(UserName),
    InvalidLogin,
    Repo,
}

/// The error for a failed load of the user named `user_name`.
pub open spec fn load_failure(err: GetError, user_name: UserName) -> Error {
    match err {
        GetError::NotFound => Error::NotFound(user_name),
        GetError::Connection => Error::Repo,
    }
}

impl From<SaveError> for Error {
    fn from(err: SaveError) -> (e: Self) {
        match err {
            SaveError::Connection => Error::Repo,
        }
    }
}

impl FromSpecImpl<SaveError> for Error {
    open spec fn obeys_from_spec() -> bool {
        true
    }

    open spec fn from_spec(err: SaveError) -> Self {
        Error::Repo
    }
}

impl From<(GetError, UserName)> for Error {
    fn from(value: (GetError, UserName)) -> (e: Self) {
        let (err, user_name) = value;
        match err {
            GetError::NotFound => Error::NotFound(user_name),
            GetError::Connection => Error::Repo,
        }
    }
}

impl FromSpecImpl<(GetError, UserName)> for Error {
    open spec fn obeys_from_spec() -> bool {
        true
    }

    open spec fn from_spec(value: (GetError, UserName)) -> Self {
        load_failure(value.0, value.1)
    }
}

/// Where a run stands.
#[derive(Debug)]
pub enum State {
    /// Loading the user named `user_name`, to check `password`.
    AwaitingUser { user_name: UserName, password: Password },
    /// Packing the auth context of the user `user_id` into a token.
    AwaitingToken { user_id: Id },
    Finished,
}

pub open spec fn awaits(state: State) -> Option<ReplyKind> {
    match state {
        State::AwaitingUser { .. } => Some(ReplyKind::UserFetched),
        State::AwaitingToken { .. } => Some(ReplyKind::AuthPacked),
        State::Finished => None,
    }
}

impl Usecase for Login {
    type Request = Request;
    type Response = Response;
    type Error = Error;
    type State = State;

    open spec fn strategy(&self) -> AuthStrategy {
        AuthStrategy::Public
    }

    open spec fn owner_of(&self, req: Request) -> Option<Id> {
        None
    }

    open spec fn awaits(&self, state: State) -> Option<ReplyKind> {
        awaits(state)
    }

    fn new() -> Self {
        Login
    }

    fn auth_strategy(&self) -> (strategy: AuthStrategy) {
        AuthStrategy::Public
    }

    fn extract_owner(&self, req: &Request) -> (owner: Option<Id>) {
        None
    }

    fn awaited(&self, state: &State) -> (kind: Option<ReplyKind>) {
        match state {
            State::AwaitingUser { .. } => Some(ReplyKind::UserFetched),
            State::AwaitingToken { .. } => Some(ReplyKind::AuthPacked),
            State::Finished => None,
        }
    }

    /// Loads the user by name.
    fn start(&self, req: Request) -> (r: (State, Step<Response, Error>))
        ensures
            r.0 matches State::AwaitingUser { user_name, password } && user_name@ == req.username@
                && password@ == req.password@,
            r.1 matches Step::Run(Command::GetUserByUsername { username }) && username@
                == req.username@,
    {
        let user_name = UserName::new(req.username.as_str());
        let password = Password::new(req.password.as_str());
        let username = user_name.duplicate();
        (State::AwaitingUser { user_name, password }, Step::Run(Command::GetUserByUsername { username }))
    }

    /// A user whose stored password equals the given one gets a token that
    /// packs its id and role, and the run returns its id with the token; any
    /// other password ends the run with `InvalidLogin`, and a failed load
    /// with its error.
    fn resume(&self, state: State, reply: Reply) -> (r: (State, Step<Response, Error>))
        ensures
            match (state, reply) {
                (State::AwaitingUser { user_name, password }, Reply::UserFetched(loaded)) => match loaded {
                    Err(e) => {
                        &&& r.0 is Finished
                        &&& r.1 matches Step::Finish(Err(err))
                        &&& err == load_failure(e, user_name)
                    },
                    Ok(record) => if password@ == record.user.spec_password()@ {
                        &&& r.0 == (State::AwaitingToken { user_id: record.user.spec_id() })
                        &&& r.1 == Step::<Response, Error>::Run(
                            Command::PackAuth {
                                auth: AuthContext {
                                    user_id: record.user.spec_id(),
                                    role: record.user.spec_role(),
                                },
                            },
                        )
                    } else {
                        &&& r.0 is Finished
                        &&& r.1 matches Step::Finish(Err(Error::InvalidLogin))
                    },
                },
                (State::AwaitingToken { user_id }, Reply::AuthPacked(token)) => {
                    &&& r.0 is Finished
                    &&& r.1 matches Step::Finish(Ok(response))
                    &&& response.user_id == user_id
                    &&& response.token == token
                },
                _ => false,
            },
    {
        match state {
            State::AwaitingUser { user_name, password } => match reply {
                Reply::UserFetched(Err(e)) => (
                    State::Finished,
                    Step::Finish(Err(Error::from((e, user_name)))),
                ),
                Reply::UserFetched(Ok(record)) => {
                    if !password.same_as(record.user.password()) {
                        (State::Finished, Step::Finish(Err(Error::InvalidLogin)))
                    } else {
                        let auth = AuthContext::new(record.user.id(), *record.user.role());
                        (
                            State::AwaitingToken { user_id: record.user.id() },
                            Step::Run(Command::PackAuth { auth }),
                        )
                    }
                },
                _ => {
                    proof {
                        assert(false);
                    }
                    (State::Finished, Step::Finish(Err(Error::Repo)))
                },
            },
            State::AwaitingToken { user_id } => match reply {
                Reply::AuthPacked(token) => (
                    State::Finished,
                    Step::Finish(Ok(Response { user_id, token })),
                ),
                _ => {
                    proof {
                        assert(false);
                    }
                    (State::Finished, Step::Finish(Err(Error::Repo)))
                },
            },
            State::Finished => {
                proof {
                    assert(false);
                }
                (State::Finished, Step::Finish(Err(Error::Repo)))
            },
        }
    }
}

} // verus!
