//! Gives a process whose email verification timed out another chance: the
//! token is extended and the process goes back to `VerificationEmailSent`.
use crate::entity::auth_strategy::AuthStrategy;
use crate::entity::signup_process::{
    clock_now, Failed, Id, SignupProcess, SignupStateEnum, SignupStateTrait,
    VerificationEmailSent,
};
use crate::entity::user::Id as UserId;
use crate::gateway::database::signup_process::{GetError, Record, SaveError};
use crate::gateway::database::token::ExtendError;
use crate::usecase::command::{
    awaited_after, saved_entry, saves_signup_state, Command, Reply, ReplyKind, Step,
};
use crate::usecase::Usecase;
use crate::value_object::Timestamp;
use vstd::prelude::*;
use vstd::std_specs::convert::FromSpecImpl;

verus! {

#[derive(Clone, Copy, Debug)]
pub struct Request {
    pub id: Id,
}

#[derive(Clone, Copy, Debug)]
pub struct Response {
    pub id: Id,
}

pub struct ExtendVerificationTime;

#[derive(Clone, Copy, Debug, PartialEq, Eq)]
pub enum Error {
    NotFound(Id),
    IncorrectState(Id),
    Repo,
    TokenRepoError(ExtendError),
}

/// The error for a failed load of the process `id`.
pub open spec fn load_failure(err: GetError, id: Id) -> Error {
    match err {
        GetError::NotFound => Error::NotFound(id),
        GetError::IncorrectState => Error::IncorrectState(id),
        GetError::Connection => Error::Repo,
    }
}

impl From<(GetError, Id)> for Error {
    fn from(value: (GetError, Id)) -> (e: Self) {
        let (err, id) = value;
        match err {
            GetError::NotFound => Error::NotFound(id),
            GetError::IncorrectState => Error::IncorrectState(id),
            GetError::Connection => Error::Repo,
        }
    }
}

impl FromSpecImpl<(GetError, Id)> for Error {
    open spec fn obeys_from_spec() -> bool {
        true
    }

    open spec fn from_spec(value: (GetError, Id)) -> Self {
        load_failure(value.0, value.1)
    }
}

impl From<SaveError> for Error {
    fn from(err: SaveError) -> (e: Self) {
        match err {
            SaveError::Connection => Error::Repo,
        }
    }
}

impl FromSpecImpl<SaveError> for Error {
    open spec fn obeys_from_spec() -> bool {
        true
    }

    open spec fn from_spec(err: SaveError) -> Self {
        Error::Repo
    }
}

/// Where a run stands.
#[derive(Debug)]
pub enum State {
    /// Loading the latest state of the process `id`.
    AwaitingRecord { id: Id },
    /// Extending the token of the recovered process.
    AwaitingExtension { id: Id, process: SignupProcess<VerificationEmailSent> },
    /// Storing the recovered process.
    AwaitingSave { id: Id },
    Finished,
}

pub open spec fn awaits(state: State) -> Option<ReplyKind> {
    match state {
        State::AwaitingRecord { .. } => Some(ReplyKind::LatestSignupState),
        State::AwaitingExtension { .. } => Some(ReplyKind::TokenExtended),
        State::AwaitingSave { .. } => Some(ReplyKind::SignupStateSaved),
        State::Finished => None,
    }
}

/// The step that gives the process failed in `VerificationEmailSent` back
/// its state, entering it again at `now`, and asks for its token to be
/// extended.
pub open spec fn restore_step(
    id: Id,
    process: SignupProcess<Failed<VerificationEmailSent>>,
    now: Timestamp,
    r: (State, Step<Response, Error>),
) -> bool {
    &&& r.0 matches State::AwaitingExtension { id: i, process: recovered }
    &&& i == id
    &&& recovered.spec_id() == process.spec_id()
    &&& recovered.spec_state() == process.spec_state().previous_state
    &&& recovered.spec_entered_at() == now
    &&& r.1 matches Step::Run(Command::ExtendToken { email })
    &&& email@ == recovered.spec_state().email@
}

/// The step that stores the recovered `process` once its token was extended.
pub open spec fn extended_save_step(
    id: Id,
    process: SignupProcess<VerificationEmailSent>,
    r: (State, Step<Response, Error>),
) -> bool {
    &&& r.0 == (State::AwaitingSave { id })
    &&& saves_signup_state(r.1, process.spec_id(), process.spec_state().as_state(), false)
    &&& saved_entry(r.1) == Some(process.spec_entered_at())
}

/// An extension gives a new verification window: the process stored back in
/// `VerificationEmailSent` after its token was extended enters that state at
/// the instant it was recovered, not at the instant it failed. For two failed
/// processes that differ at most in their entry times, the stored entry times
/// agree exactly when the instants of recovery do.
pub proof fn lemma_extension_enters_at_step_instant(
    id: Id,
    p: SignupProcess<Failed<VerificationEmailSent>>,
    q: SignupProcess<Failed<VerificationEmailSent>>,
    n1: Timestamp,
    n2: Timestamp,
    r1: (State, Step<Response, Error>),
    s1: (State, Step<Response, Error>),
    r2: (State, Step<Response, Error>),
    s2: (State, Step<Response, Error>),
)
    requires
        p.spec_id() == q.spec_id(),
        p.spec_state() == q.spec_state(),
        restore_step(id, p, n1, r1),
        restore_step(id, q, n2, s1),
        r1.0 matches State::AwaitingExtension { process, .. } && extended_save_step(id, process, r2),
        s1.0 matches State::AwaitingExtension { process, .. } && extended_save_step(id, process, s2),
    ensures
        saved_entry(r2.1) == Some(n1),
        saved_entry(r2.1) == saved_entry(s2.1) <==> n1 == n2,
{
}

impl ExtendVerificationTime {
    /// Gives the process failed in `VerificationEmailSent` back its state,
    /// entering it again at `now`, and asks for its token to be extended.
    pub fn restore(id: Id, process: SignupProcess<Failed<VerificationEmailSent>>, now: Timestamp) -> (r: (
        State,
        Step<Response, Error>,
    ))
        ensures
            awaits(r.0) == awaited_after(r.1),
            restore_step(id, process, now, r),
    {
        let recovered = process.recover_at(now);
        let email = recovered.state().email.as_str().to_owned();
        (State::AwaitingExtension { id, process: recovered }, Step::Run(Command::ExtendToken { email }))
    }

    fn on_record(id: Id, loaded: Result<Record, GetError>) -> (r: (State, Step<Response, Error>))
        ensures
            awaits(r.0) == awaited_after(r.1),
            match loaded {
                Err(e) => r.0 is Finished && r.1 == Step::<Response, Error>::Finish(
                    Err(load_failure(e, id)),
                ),
                Ok(record) => if Failed::<VerificationEmailSent>::admits(record.state) {
                    &&& r.0 matches State::AwaitingExtension { id: i, process }
                    &&& i == id
                    &&& process.spec_id() == record.id
                    &&& record.state matches SignupStateEnum::Failed { previous_state, .. }
                    &&& process.spec_state().as_state() == *previous_state
                    &&& r.1 matches Step::Run(Command::ExtendToken { email })
                    &&& email@ == process.spec_state().email@
                } else {
                    r.0 is Finished && r.1 == Step::<Response, Error>::Finish(
                        Err(Error::IncorrectState(id)),
                    )
                },
            },
    {
        match loaded {
            Err(e) => (State::Finished, Step::Finish(Err(Error::from((e, id))))),
            Ok(record) => {
                let ghost stored = record;
                match record.into_process::<Failed<VerificationEmailSent>>() {
                    Err(e) => (State::Finished, Step::Finish(Err(Error::from((e, id))))),
                    Ok(process) => {
                        let now = clock_now();
                        let r = Self::restore(id, process, now);
                        assert(stored.describes(process));
                        r
                    },
                }
            },
        }
    }
}

impl Usecase for ExtendVerificationTime {
    type Request = Request;
    type Response = Response;
    type Error = Error;
    type State = State;

    open spec fn strategy(&self) -> AuthStrategy {
        AuthStrategy::AdminOnly
    }

    open spec fn owner_of(&self, req: Request) -> Option<UserId> {
        None
    }

    open spec fn awaits(&self, state: State) -> Option<ReplyKind> {
        awaits(state)
    }

    fn new() -> Self {
        ExtendVerificationTime
    }

    fn auth_strategy(&self) -> (strategy: AuthStrategy) {
        AuthStrategy::AdminOnly
    }

    fn extract_owner(&self, req: &Request) -> (owner: Option<UserId>) {
        None
    }

    fn awaited(&self, state: &State) -> (kind: Option<ReplyKind>) {
        match state {
            State::AwaitingRecord { .. } => Some(ReplyKind::LatestSignupState),
            State::AwaitingExtension { .. } => Some(ReplyKind::TokenExtended),
            State::AwaitingSave { .. } => Some(ReplyKind::SignupStateSaved),
            State::Finished => None,
        }
    }

    /// Loads the latest state of the process.
    fn start(&self, req: Request) -> (r: (State, Step<Response, Error>))
        ensures
            r.0 == (State::AwaitingRecord { id: req.id }),
            r.1 == Step::<Response, Error>::Run(
                Command::GetLatestSignupState { id: req.id, in_transaction: false },
            ),
    {
        (
            State::AwaitingRecord { id: req.id },
            Step::Run(Command::GetLatestSignupState { id: req.id, in_transaction: false }),
        )
    }

    /// A process that failed in `VerificationEmailSent` goes back to that
    /// state, its token is extended, and it is stored; any other state ends
    /// the run with `IncorrectState`, a load failure with its error, a failed
    /// extension with `TokenRepoError` and a failed store with `Repo`.
    fn resume(&self, state: State, reply: Reply) -> (r: (State, Step<Response, Error>))
        ensures
            match (state, reply) {
                (State::AwaitingRecord { id }, Reply::LatestSignupState(loaded)) => match loaded {
                    Err(e) => r.0 is Finished && r.1 == Step::<Response, Error>::Finish(
                        Err(load_failure(e, id)),
                    ),
                    Ok(record) => if Failed::<VerificationEmailSent>::admits(record.state) {
                        &&& r.0 matches State::AwaitingExtension { id: i, process }
                        &&& i == id
                        &&& process.spec_id() == record.id
                        &&& record.state matches SignupStateEnum::Failed { previous_state, .. }
                        &&& process.spec_state().as_state() == *previous_state
                        &&& r.1 matches Step::Run(Command::ExtendToken { email })
                        &&& email@ == process.spec_state().email@
                    } else {
                        r.0 is Finished && r.1 == Step::<Response, Error>::Finish(
                            Err(Error::IncorrectState(id)),
                        )
                    },
                },
                (State::AwaitingExtension { id, process }, Reply::TokenExtended(extended)) => match extended {
                    Ok(_) => extended_save_step(id, process, r),
                    Err(e) => r.0 is Finished && r.1 == Step::<Response, Error>::Finish(
                        Err(Error::TokenRepoError(e)),
                    ),
                },
                (State::AwaitingSave { id }, Reply::SignupStateSaved(saved)) => {
                    &&& r.0 is Finished
                    &&& r.1 == Step::<Response, Error>::Finish(
                        match saved {
                            Ok(_) => Ok(Response { id }),
                            Err(_) => Err(Error::Repo),
                        },
                    )
                },
                _ => false,
            },
    {
        match state {
            State::AwaitingRecord { id } => match reply {
                Reply::LatestSignupState(loaded) => Self::on_record(id, loaded),
                _ => {
                    proof {
                        assert(false);
                    }
                    (State::Finished, Step::Finish(Err(Error::Repo)))
                },
            },
            State::AwaitingExtension { id, process } => match reply {
                Reply::TokenExtended(Ok(_)) => (
                    State::AwaitingSave { id },
                    Step::Run(
                        Command::SaveLatestSignupState {
                            record: Record::from_process(process),
                            in_transaction: false,
                        },
                    ),
                ),
                Reply::TokenExtended(Err(e)) => (
                    State::Finished,
                    Step::Finish(Err(Error::TokenRepoError(e))),
                ),
                _ => {
                    proof {
                        assert(false);
                    }
                    (State::Finished, Step::Finish(Err(Error::Repo)))
                },
            },
            State::AwaitingSave { id } => match reply {
                Reply::SignupStateSaved(Ok(_)) => (State::Finished, Step::Finish(Ok(Response { id }))),
                Reply::SignupStateSaved(Err(e)) => (
                    State::Finished,
                    Step::Finish(Err(Error::from(e))),
                ),
                _ => {
                    proof {
                        assert(false);
                    }
                    (State::Finished, Step::Finish(Err(Error::Repo)))
                },
            },
            State::Finished => {
                proof {
                    assert(false);
                }
                (State::Finished, Step::Finish(Err(Error::Repo)))
            },
        }
    }
}

} // verus!
