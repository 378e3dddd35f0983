//! Schedules a failed signup process for deletion.
use crate::entity::auth_strategy::AuthStrategy;
use crate::entity::signup_process::{
    EmailVerified, Failed, ForDeletion, Id, SignupProcess, SignupStateEnum, VerificationEmailSent,
};
use crate::entity::user::Id as UserId;
use crate::gateway::repository::signup_process::{GetError, Record, SaveError};
use crate::usecase::command::{
    awaited_after, saves_stored_signup_state, Command, Reply, ReplyKind, Step,
};
use crate::usecase::Usecase;
use vstd::prelude::*;
use vstd::std_specs::convert::FromSpecImpl;

verus! {

#[derive(Clone, Copy, Debug)]
pub struct Request {
    pub id: Id,
}

#[derive(Clone, Copy, Debug)]
pub struct Response {
    pub id: Id,
}

pub struct Delete;

#[derive(Clone, Copy, Debug, PartialEq, Eq)]
pub enum Error {
    NotFound(Id),
    Repo,
}

/// The error for a failed load of the process `id`.
pub open spec fn load_failure(err: GetError, id: Id) -> Error {
    match err {
        GetError::NotFound => Error::NotFound(id),
        GetError::Connection => Error::Repo,
    }
}

impl From<(GetError, Id)> for Error {
    fn from(value: (GetError, Id)) -> (e: Self) {
        let (err, id) = value;
        match err {
            GetError::NotFound => Error::NotFound(id),
            GetError::Connection => Error::Repo,
        }
    }
}

impl FromSpecImpl<(GetError, Id)> for Error {
    open spec fn obeys_from_spec() -> bool {
        true
    }

    open spec fn from_spec(value: (GetError, Id)) -> Self {
        load_failure(value.0, value.1)
    }
}

impl From<SaveError> for Error {
    fn from(err: SaveError) -> (e: Self) {
        match err {
            SaveError::Connection => Error::Repo,
        }
    }
}

impl FromSpecImpl<SaveError> for Error {
    open spec fn obeys_from_spec() -> bool {
        true
    }

    open spec fn from_spec(err: SaveError) -> Self {
        Error::Repo
    }
}

/// Where a run stands.
#[derive(Debug)]
pub enum State {
    /// Loading the latest state of the process `id`.
    AwaitingRecord { id: Id },
    /// Storing the process in `ForDeletion`.
    AwaitingSave { id: Id },
    Finished,
}

pub open spec fn awaits(state: State) -> Option<ReplyKind> {
    match state {
        State::AwaitingRecord { .. } => Some(ReplyKind::StoredSignupState),
        State::AwaitingSave { .. } => Some(ReplyKind::StoredSignupStateSaved),
        State::Finished => None,
    }
}

/// Whether a stored state may be deleted: a process that failed while
/// waiting for its email to be verified or for its completion.
pub open spec fn deletable(state: SignupStateEnum) -> bool {
    &&& state matches SignupStateEnum::Failed { previous_state, .. }
    &&& (*previous_state is VerificationEmailSent || *previous_state is EmailVerified)
}

impl Delete {
    /// Deletion runs in a transaction.
    pub fn is_transactional() -> (transactional: bool)
        ensures
            transactional,
    {
        true
    }

    fn on_record(id: Id, loaded: Result<Record, GetError>) -> (r: (State, Step<Response, Error>))
        ensures
            awaits(r.0) == awaited_after(r.1),
            match loaded {
                Err(e) => r.0 is Finished && r.1 == Step::<Response, Error>::Finish(
                    Err(load_failure(e, id)),
                ),
                Ok(record) => if deletable(record.state) {
                    &&& r.0 == (State::AwaitingSave { id })
                    &&& saves_stored_signup_state(r.1, record.id, SignupStateEnum::ForDeletion)
                } else {
                    r.0 is Finished && r.1 == Step::<Response, Error>::Finish(
                        Err(Error::NotFound(id)),
                    )
                },
            },
    {
        match loaded {
            Err(e) => (State::Finished, Step::Finish(Err(Error::from((e, id))))),
            Ok(record) => {
                let (after_sent, after_verified) = match &record.state {
                    SignupStateEnum::Failed { previous_state, error: _ } => {
                        let previous: &SignupStateEnum = &**previous_state;
                        match previous {
                            SignupStateEnum::VerificationEmailSent { .. } => (true, false),
                            SignupStateEnum::EmailVerified { .. } => (false, true),
                            _ => (false, false),
                        }
                    },
                    _ => (false, false),
                };
                if after_sent {
                    match record.into_process::<Failed<VerificationEmailSent>>() {
                        Ok(process) => Self::store_deleted(id, process.delete()),
                        Err(_) => (State::Finished, Step::Finish(Err(Error::NotFound(id)))),
                    }
                } else if after_verified {
                    match record.into_process::<Failed<EmailVerified>>() {
                        Ok(process) => Self::store_deleted(id, process.delete()),
                        Err(_) => (State::Finished, Step::Finish(Err(Error::NotFound(id)))),
                    }
                } else {
                    (State::Finished, Step::Finish(Err(Error::NotFound(id))))
                }
            },
        }
    }

    fn store_deleted(id: Id, process: SignupProcess<ForDeletion>) -> (r: (
        State,
        Step<Response, Error>,
    ))
        ensures
            r.0 == (State::AwaitingSave { id }),
            saves_stored_signup_state(r.1, process.spec_id(), SignupStateEnum::ForDeletion),
    {
        (
            State::AwaitingSave { id },
            Step::Run(Command::SaveStoredSignupState { record: Record::from_process(process) }),
        )
    }
}

impl Usecase for Delete {
    type Request = Request;
    type Response = Response;
    type Error = Error;
    type State = State;

    open spec fn strategy(&self) -> AuthStrategy {
        AuthStrategy::AdminOnly
    }

    open spec fn owner_of(&self, req: Request) -> Option<UserId> {
        None
    }

    open spec fn awaits(&self, state: State) -> Option<ReplyKind> {
        awaits(state)
    }

    fn new() -> Self {
        Delete
    }

    fn auth_strategy(&self) -> (strategy: AuthStrategy) {
        AuthStrategy::AdminOnly
    }

    fn extract_owner(&self, req: &Request) -> (owner: Option<UserId>) {
        None
    }

    fn awaited(&self, state: &State) -> (kind: Option<ReplyKind>) {
        match state {
            State::AwaitingRecord { .. } => Some(ReplyKind::StoredSignupState),
            State::AwaitingSave { .. } => Some(ReplyKind::StoredSignupStateSaved),
            State::Finished => None,
        }
    }

    /// Loads the latest state of the process.
    fn start(&self, req: Request) -> (r: (State, Step<Response, Error>))
        ensures
            r.0 == (State::AwaitingRecord { id: req.id }),
            r.1 == Step::<Response, Error>::Run(Command::GetStoredSignupState { id: req.id }),
    {
        (State::AwaitingRecord { id: req.id }, Step::Run(Command::GetStoredSignupState { id: req.id }))
    }

    /// A process that failed in `VerificationEmailSent` or `EmailVerified`
    /// is stored in `ForDeletion`; a process in another state ends the run
    /// with `NotFound`, as does a failed store; a failed load ends it with its
    /// error.
    fn resume(&self, state: State, reply: Reply) -> (r: (State, Step<Response, Error>))
        ensures
            match (state, reply) {
                (State::AwaitingRecord { id }, Reply::StoredSignupState(loaded)) => match loaded {
                    Err(e) => r.0 is Finished && r.1 == Step::<Response, Error>::Finish(
                        Err(load_failure(e, id)),
                    ),
                    Ok(record) => if deletable(record.state) {
                        &&& r.0 == (State::AwaitingSave { id })
                        &&& saves_stored_signup_state(r.1, record.id, SignupStateEnum::ForDeletion)
                    } else {
                        r.0 is Finished && r.1 == Step::<Response, Error>::Finish(
                            Err(Error::NotFound(id)),
                        )
                    },
                },
                (State::AwaitingSave { id }, Reply::StoredSignupStateSaved(saved)) => {
                    &&& r.0 is Finished
                    &&& r.1 == Step::<Response, Error>::Finish(
                        match saved {
                            Ok(_) => Ok(Response { id }),
                            Err(_) => Err(Error::NotFound(id)),
                        },
                    )
                },
                _ => false,
            },
    {
        match state {
            State::AwaitingRecord { id } => match reply {
                Reply::StoredSignupState(loaded) => Self::on_record(id, loaded),
                _ => {
                    proof {
                        assert(false);
                    }
                    (State::Finished, Step::Finish(Err(Error::Repo)))
                },
            },
            State::AwaitingSave { id } => match reply {
                Reply::StoredSignupStateSaved(Ok(_)) => (
                    State::Finished,
                    Step::Finish(Ok(Response { id })),
                ),
                Reply::StoredSignupStateSaved(Err(_)) => (
                    State::Finished,
                    Step::Finish(Err(Error::NotFound(id))),
                ),
                _ => {
                    proof {
                        assert(false);
                    }
                    (State::Finished, Step::Finish(Err(Error::Repo)))
                },
            },
            State::Finished => {
                proof {
                    assert(false);
                }
                (State::Finished, Step::Finish(Err(Error::Repo)))
            },
        }
    }
}

} // verus!
