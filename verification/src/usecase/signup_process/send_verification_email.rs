//! Sends the verification email of a freshly initialized signup process.
use crate::entity::auth_strategy::AuthStrategy;
use crate::entity::signup_process::{
    Error as SignupProcessError, Failed, Id, Initialized, SignupProcess, SignupStateTrait,
    VerificationEmailSent,
};
use crate::entity::user::Id as UserId;
use crate::gateway::database::signup_process::{GetError, Record, SaveError};
use crate::gateway::database::token::GenError as TokenRepoError;
use crate::gateway::service::email::{EmailAddress, EmailServiceError};
use crate::usecase::command::{awaited_after, saves_signup_state, Command, Reply, ReplyKind, Step};
use crate::usecase::Usecase;
use vstd::prelude::*;
use vstd::std_specs::convert::FromSpecImpl;

verus! {

#[derive(Clone, Copy, Debug)]
pub struct Request {
    pub id: Id,
}

#[derive(Clone, Copy, Debug)]
pub struct Response {
    pub id: Id,
}

pub struct SendVerificationEmail;

#[derive(Clone, Debug, PartialEq, Eq)]
pub enum Error {
    NotFound(Id),
    IncorrectState(Id),
    Repo,
    TokenRepoError(TokenRepoError),
    EmailServiceError(EmailServiceError),
}

/// The error for a failed load of the process `id`.
pub open spec fn load_failure(err: GetError, id: Id) -> Error {
    match err {
        GetError::NotFound => Error::NotFound(id),
        GetError::IncorrectState => Error::IncorrectState(id),
        GetError::Connection => Error::Repo,
    }
}

impl From<(GetError, Id)> for Error {
    fn from(value: (GetError, Id)) -> (e: Self) {
        let (err, id) = value;
        match err {
            GetError::NotFound => Error::NotFound(id),
            GetError::IncorrectState => Error::IncorrectState(id),
            GetError::Connection => Error::Repo,
        }
    }
}

impl FromSpecImpl<(GetError, Id)> for Error {
    open spec fn obeys_from_spec() -> bool {
        true
    }

    open spec fn from_spec(value: (GetError, Id)) -> Self {
        load_failure(value.0, value.1)
    }
}

impl From<SaveError> for Error {
    fn from(err: SaveError) -> (e: Self) {
        Error::Repo
    }
}

impl FromSpecImpl<SaveError> for Error {
    open spec fn obeys_from_spec() -> bool {
        true
    }

    open spec fn from_spec(err: SaveError) -> Self {
        Error::Repo
    }
}

/// Where a run stands.
#[derive(Debug)]
pub enum State {
    /// Loading the latest state of the process `id`.
    AwaitingRecord { id: Id },
    /// Generating a token for the initialized process.
    AwaitingToken { id: Id, process: SignupProcess<Initialized> },
    /// Sending the email with the token.
    AwaitingEmail { id: Id, process: SignupProcess<Initialized> },
    /// Storing the failed process; the run then ends with `error`.
    AwaitingFailureSave { error: Error },
    /// Storing the process in `VerificationEmailSent`.
    AwaitingSave { id: Id },
    Finished,
}

pub open spec fn awaits(state: State) -> Option<ReplyKind> {
    match state {
        State::AwaitingRecord { .. } => Some(ReplyKind::LatestSignupState),
        State::AwaitingToken { .. } => Some(ReplyKind::TokenGenerated),
        State::AwaitingEmail { .. } => Some(ReplyKind::VerificationEmailSent),
        State::AwaitingFailureSave { .. } => Some(ReplyKind::SignupStateSaved),
        State::AwaitingSave { .. } => Some(ReplyKind::SignupStateSaved),
        State::Finished => None,
    }
}

impl SendVerificationEmail {
    /// The next step after the latest state of process `id` was loaded.
    fn on_record(id: Id, loaded: Result<Record, GetError>) -> (r: (State, Step<Response, Error>))
        ensures
            awaits(r.0) == awaited_after(r.1),
            match loaded {
                Err(e) => r.0 is Finished && r.1 == Step::<Response, Error>::Finish(
                    Err(load_failure(e, id)),
                ),
                Ok(record) => if record.state is Initialized {
                    &&& r.0 matches State::AwaitingToken { id: i, process } && i == id
                        && record.describes(process)
                    &&& r.1 matches Step::Run(Command::GenerateToken { email })
                        && record.state matches crate::entity::signup_process::SignupStateEnum::Initialized { email: e }
                        && email@ == e@
                } else {
                    r.0 is Finished && r.1 == Step::<Response, Error>::Finish(
                        Err(Error::IncorrectState(id)),
                    )
                },
            },
    {
        match loaded {
            Err(e) => (State::Finished, Step::Finish(Err(Error::from((e, id))))),
            Ok(record) => match record.into_process::<Initialized>() {
                Err(e) => (State::Finished, Step::Finish(Err(Error::from((e, id))))),
                Ok(process) => {
                    let email = process.state().email.as_str().to_owned();
                    (State::AwaitingToken { id, process }, Step::Run(Command::GenerateToken { email }))
                },
            },
        }
    }

    /// The process failed with `failure`: store it failed, then end with `error`.
    fn store_failure(process: SignupProcess<Initialized>, failure: SignupProcessError, error: Error) -> (r: (
        State,
        Step<Response, Error>,
    ))
        ensures
            r.0 == (State::AwaitingFailureSave { error }),
            saves_signup_state(
                r.1,
                process.spec_id(),
                (Failed { previous_state: process.spec_state(), error: failure }).as_state(),
                false,
            ),
    {
        let failed = process.fail(failure);
        (
            State::AwaitingFailureSave { error },
            Step::Run(
                Command::SaveLatestSignupState {
                    record: Record::from_process(failed),
                    in_transaction: false,
                },
            ),
        )
    }
}

impl Usecase for SendVerificationEmail {
    type Request = Request;
    type Response = Response;
    type Error = Error;
    type State = State;

    open spec fn strategy(&self) -> AuthStrategy {
        AuthStrategy::AdminOnly
    }

    open spec fn owner_of(&self, req: Request) -> Option<UserId> {
        None
    }

    open spec fn awaits(&self, state: State) -> Option<ReplyKind> {
        awaits(state)
    }

    fn new() -> Self {
        SendVerificationEmail
    }

    fn auth_strategy(&self) -> (strategy: AuthStrategy) {
        AuthStrategy::AdminOnly
    }

    fn extract_owner(&self, req: &Request) -> (owner: Option<UserId>) {
        None
    }

    fn awaited(&self, state: &State) -> (kind: Option<ReplyKind>) {
        match state {
            State::AwaitingRecord { .. } => Some(ReplyKind::LatestSignupState),
            State::AwaitingToken { .. } => Some(ReplyKind::TokenGenerated),
            State::AwaitingEmail { .. } => Some(ReplyKind::VerificationEmailSent),
            State::AwaitingFailureSave { .. } => Some(ReplyKind::SignupStateSaved),
            State::AwaitingSave { .. } => Some(ReplyKind::SignupStateSaved),
            State::Finished => None,
        }
    }

    /// Loads the latest state of the process.
    fn start(&self, req: Request) -> (r: (State, Step<Response, Error>))
        ensures
            r.0 == (State::AwaitingRecord { id: req.id }),
            r.1 == Step::<Response, Error>::Run(
                Command::GetLatestSignupState { id: req.id, in_transaction: false },
            ),
    {
        (
            State::AwaitingRecord { id: req.id },
            Step::Run(Command::GetLatestSignupState { id: req.id, in_transaction: false }),
        )
    }

    /// A process in `Initialized` gets a token, which is emailed to its
    /// address; then the process moves to `VerificationEmailSent`. When the
    /// token or the email fails, the process is stored failed
    /// (`TokenGenrationFailed` or `VerificationEmailSendError`) and the run
    /// ends with that error. A load failure ends the run at once; a failed
    /// store ends it with `Repo`.
    fn resume(&self, state: State, reply: Reply) -> (r: (State, Step<Response, Error>))
        ensures
            match (state, reply) {
                (State::AwaitingRecord { id }, Reply::LatestSignupState(loaded)) => match loaded {
                    Err(e) => r.0 is Finished && r.1 == Step::<Response, Error>::Finish(
                        Err(load_failure(e, id)),
                    ),
                    Ok(record) => if record.state is Initialized {
                        &&& r.0 matches State::AwaitingToken { id: i, process } && i == id
                            && record.describes(process)
                        &&& r.1 matches Step::Run(Command::GenerateToken { email })
                            && record.state matches crate::entity::signup_process::SignupStateEnum::Initialized { email: e }
                            && email@ == e@
                    } else {
                        r.0 is Finished && r.1 == Step::<Response, Error>::Finish(
                            Err(Error::IncorrectState(id)),
                        )
                    },
                },
                (State::AwaitingToken { id, process }, Reply::TokenGenerated(generated)) => match generated {
                    Ok(token) => {
                        &&& r.0 == (State::AwaitingEmail { id, process })
                        &&& r.1 matches Step::Run(Command::SendVerificationEmail { to, token: t })
                            && to@ == process.spec_state().email@ && t == token.token
                    },
                    Err(e) => {
                        &&& r.0 == (State::AwaitingFailureSave { error: Error::TokenRepoError(e) })
                        &&& saves_signup_state(
                            r.1,
                            process.spec_id(),
                            (Failed {
                                previous_state: process.spec_state(),
                                error: SignupProcessError::TokenGenrationFailed,
                            }).as_state(),
                            false,
                        )
                    },
                },
                (State::AwaitingEmail { id, process }, Reply::VerificationEmailSent(sent)) => match sent {
                    Ok(_) => {
                        &&& r.0 == (State::AwaitingSave { id })
                        &&& saves_signup_state(
                            r.1,
                            process.spec_id(),
                            (VerificationEmailSent { email: process.spec_state().email }).as_state(),
                            false,
                        )
                    },
                    Err(e) => {
                        &&& r.0 == (State::AwaitingFailureSave { error: Error::EmailServiceError(e) })
                        &&& saves_signup_state(
                            r.1,
                            process.spec_id(),
                            (Failed {
                                previous_state: process.spec_state(),
                                error: SignupProcessError::VerificationEmailSendError,
                            }).as_state(),
                            false,
                        )
                    },
                },
                (State::AwaitingFailureSave { error }, Reply::SignupStateSaved(saved)) => {
                    &&& r.0 is Finished
                    &&& r.1 == Step::<Response, Error>::Finish(
                        Err(
                            match saved {
                                Ok(_) => error,
                                Err(_) => Error::Repo,
                            },
                        ),
                    )
                },
                (State::AwaitingSave { id }, Reply::SignupStateSaved(saved)) => {
                    &&& r.0 is Finished
                    &&& r.1 == Step::<Response, Error>::Finish(
                        match saved {
                            Ok(_) => Ok(Response { id }),
                            Err(_) => Err(Error::Repo),
                        },
                    )
                },
                _ => false,
            },
    {
        match state {
            State::AwaitingRecord { id } => match reply {
                Reply::LatestSignupState(loaded) => Self::on_record(id, loaded),
                _ => {
                    proof {
                        assert(false);
                    }
                    (State::Finished, Step::Finish(Err(Error::Repo)))
                },
            },
            State::AwaitingToken { id, process } => match reply {
                Reply::TokenGenerated(Ok(token)) => {
                    let to = EmailAddress::new(process.state().email.as_str());
                    (
                        State::AwaitingEmail { id, process },
                        Step::Run(Command::SendVerificationEmail { to, token: token.token }),
                    )
                },
                Reply::TokenGenerated(Err(e)) => Self::store_failure(
                    process,
                    SignupProcessError::TokenGenrationFailed,
                    Error::TokenRepoError(e),
                ),
                _ => {
                    proof {
                        assert(false);
                    }
                    (State::Finished, Step::Finish(Err(Error::Repo)))
                },
            },
            State::AwaitingEmail { id, process } => match reply {
                Reply::VerificationEmailSent(Ok(_)) => {
                    let process = process.send_verification_email();
                    (
                        State::AwaitingSave { id },
                        Step::Run(
                            Command::SaveLatestSignupState {
                                record: Record::from_process(process),
                                in_transaction: false,
                            },
                        ),
                    )
                },
                Reply::VerificationEmailSent(Err(e)) => Self::store_failure(
                    process,
                    SignupProcessError::VerificationEmailSendError,
                    Error::EmailServiceError(e),
                ),
                _ => {
                    proof {
                        assert(false);
                    }
                    (State::Finished, Step::Finish(Err(Error::Repo)))
                },
            },
            State::AwaitingFailureSave { error } => match reply {
                Reply::SignupStateSaved(Ok(_)) => (State::Finished, Step::Finish(Err(error))),
                Reply::SignupStateSaved(Err(e)) => (
                    State::Finished,
                    Step::Finish(Err(Error::from(e))),
                ),
                _ => {
                    proof {
                        assert(false);
                    }
                    (State::Finished, Step::Finish(Err(Error::Repo)))
                },
            },
            State::AwaitingSave { id } => match reply {
                Reply::SignupStateSaved(Ok(_)) => (State::Finished, Step::Finish(Ok(Response { id }))),
                Reply::SignupStateSaved(Err(e)) => (
                    State::Finished,
                    Step::Finish(Err(Error::from(e))),
                ),
                _ => {
                    proof {
                        assert(false);
                    }
                    (State::Finished, Step::Finish(Err(Error::Repo)))
                },
            },
            State::Finished => {
                proof {
                    assert(false);
                }
                (State::Finished, Step::Finish(Err(Error::Repo)))
            },
        }
    }
}

} // verus!
