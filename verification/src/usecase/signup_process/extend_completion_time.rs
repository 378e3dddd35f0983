//! Gives a process whose completion timed out another chance.
use crate::entity::auth_strategy::AuthStrategy;
use crate::entity::signup_process::{
    clock_now, EmailVerified, Failed, Id, SignupProcess, SignupStateEnum, SignupStateTrait,
};
use crate::entity::user::Id as UserId;
use crate::gateway::database::signup_process::{GetError, Record, SaveError};
use crate::usecase::command::{
    awaited_after, saved_entry, saves_signup_state, Command, Reply, ReplyKind, Step,
};
use crate::usecase::Usecase;
use crate::value_object::Timestamp;
use vstd::prelude::*;
use vstd::std_specs::convert::FromSpecImpl;

verus! {

#[derive(Clone, Copy, Debug)]
pub struct Request {
    pub id: Id,
}

#[derive(Clone, Copy, Debug)]
pub struct Response {
    pub id: Id,
}

pub struct ExtendCompletionTime;

#[derive(Clone, Copy, Debug, PartialEq, Eq)]
pub enum Error {
    NotFound(Id),
    IncorrectState(Id),
    Repo,
}

/// The error for a failed load of the process `id`.
pub open spec fn load_failure(err: GetError, id: Id) -> Error {
    match err {
        GetError::NotFound => Error::NotFound(id),
        GetError::IncorrectState => Error::IncorrectState(id),
        GetError::Connection => Error::Repo,
    }
}

impl From<(GetError, Id)> for Error {
    fn from(value: (GetError, Id)) -> (e: Self) {
        let (err, id) = value;
        match err {
            GetError::NotFound => Error::NotFound(id),
            GetError::IncorrectState => Error::IncorrectState(id),
            GetError::Connection => Error::Repo,
        }
    }
}

impl FromSpecImpl<(GetError, Id)> for Error {
    open spec fn obeys_from_spec() -> bool {
        true
    }

    open spec fn from_spec(value: (GetError, Id)) -> Self {
        load_failure(value.0, value.1)
    }
}

impl From<SaveError> for Error {
    fn from(err: SaveError) -> (e: Self) {
        match err {
            SaveError::Connection => Error::Repo,
        }
    }
}

impl FromSpecImpl<SaveError> for Error {
    open spec fn obeys_from_spec() -> bool {
        true
    }

    open spec fn from_spec(err: SaveError) -> Self {
        Error::Repo
    }
}

/// Where a run stands.
#[derive(Debug)]
pub enum State {
    /// Loading the latest state of the process `id`.
    AwaitingRecord { id: Id },
    /// Storing the recovered process.
    AwaitingSave { id: Id },
    Finished,
}

pub open spec fn awaits(state: State) -> Option<ReplyKind> {
    match state {
        State::AwaitingRecord { .. } => Some(ReplyKind::LatestSignupState),
        State::AwaitingSave { .. } => Some(ReplyKind::SignupStateSaved),
        State::Finished => None,
    }
}

/// The step that gives the process failed in `EmailVerified` back its
/// state, entering it again at `now`, and stores it.
pub open spec fn restore_step(
    id: Id,
    process: SignupProcess<Failed<EmailVerified>>,
    now: Timestamp,
    r: (State, Step<Response, Error>),
) -> bool {
    &&& r.0 == (State::AwaitingSave { id })
    &&& saves_signup_state(
        r.1,
        process.spec_id(),
        process.spec_state().previous_state.as_state(),
        false,
    )
    &&& saved_entry(r.1) == Some(now)
}

/// An extension gives a new completion window: the process stored back in
/// `EmailVerified` enters it at the instant of the step, not at the instant it
/// failed, so for two failed processes that differ at most in their entry
/// times the stored entry times agree exactly when the steps' instants do.
pub proof fn lemma_extension_enters_at_step_instant(
    id: Id,
    p: SignupProcess<Failed<EmailVerified>>,
    q: SignupProcess<Failed<EmailVerified>>,
    n1: Timestamp,
    n2: Timestamp,
    r: (State, Step<Response, Error>),
    s: (State, Step<Response, Error>),
)
    requires
        p.spec_id() == q.spec_id(),
        p.spec_state() == q.spec_state(),
        restore_step(id, p, n1, r),
        restore_step(id, q, n2, s),
    ensures
        saved_entry(r.1) == Some(n1),
        saved_entry(r.1) == saved_entry(s.1) <==> n1 == n2,
{
}

impl ExtendCompletionTime {
    /// Gives the process failed in `EmailVerified` back its state, entering it
    /// again at `now`, and stores it.
    pub fn restore(id: Id, process: SignupProcess<Failed<EmailVerified>>, now: Timestamp) -> (r: (
        State,
        Step<Response, Error>,
    ))
        ensures
            awaits(r.0) == awaited_after(r.1),
            restore_step(id, process, now, r),
    {
        let recovered = process.recover_at(now);
        (
            State::AwaitingSave { id },
            Step::Run(
                Command::SaveLatestSignupState {
                    record: Record::from_process(recovered),
                    in_transaction: false,
                },
            ),
        )
    }

    fn on_record(id: Id, loaded: Result<Record, GetError>) -> (r: (State, Step<Response, Error>))
        ensures
            awaits(r.0) == awaited_after(r.1),
            match loaded {
                Err(e) => r.0 is Finished && r.1 == Step::<Response, Error>::Finish(
                    Err(load_failure(e, id)),
                ),
                Ok(record) => if Failed::<EmailVerified>::admits(record.state) {
                    &&& r.0 == (State::AwaitingSave { id })
                    &&& record.state matches SignupStateEnum::Failed { previous_state, .. }
                    &&& saves_signup_state(r.1, record.id, *previous_state, false)
                } else {
                    r.0 is Finished && r.1 == Step::<Response, Error>::Finish(
                        Err(Error::IncorrectState(id)),
                    )
                },
            },
    {
        match loaded {
            Err(e) => (State::Finished, Step::Finish(Err(Error::from((e, id))))),
            Ok(record) => {
                let ghost stored = record;
                match record.into_process::<Failed<EmailVerified>>() {
                    Err(e) => (State::Finished, Step::Finish(Err(Error::from((e, id))))),
                    Ok(process) => {
                        let now = clock_now();
                        let r = Self::restore(id, process, now);
                        assert(stored.describes(process));
                        r
                    },
                }
            },
        }
    }
}

impl Usecase for ExtendCompletionTime {
    type Request = Request;
    type Response = Response;
    type Error = Error;
    type State = State;

    open spec fn strategy(&self) -> AuthStrategy {
        AuthStrategy::AdminOnly
    }

    open spec fn owner_of(&self, req: Request) -> Option<UserId> {
        None
    }

    open spec fn awaits(&self, state: State) -> Option<ReplyKind> {
        awaits(state)
    }

    fn new() -> Self {
        ExtendCompletionTime
    }

    fn auth_strategy(&self) -> (strategy: AuthStrategy) {
        AuthStrategy::AdminOnly
    }

    fn extract_owner(&self, req: &Request) -> (owner: Option<UserId>) {
        None
    }

    fn awaited(&self, state: &State) -> (kind: Option<ReplyKind>) {
        match state {
            State::AwaitingRecord { .. } => Some(ReplyKind::LatestSignupState),
            State::AwaitingSave { .. } => Some(ReplyKind::SignupStateSaved),
            State::Finished => None,
        }
    }

    /// Loads the latest state of the process.
    fn start(&self, req: Request) -> (r: (State, Step<Response, Error>))
        ensures
            r.0 == (State::AwaitingRecord { id: req.id }),
            r.1 == Step::<Response, Error>::Run(
                Command::GetLatestSignupState { id: req.id, in_transaction: false },
            ),
    {
        (
            State::AwaitingRecord { id: req.id },
            Step::Run(Command::GetLatestSignupState { id: req.id, in_transaction: false }),
        )
    }

    /// A process that failed in `EmailVerified` goes back to `EmailVerified`
    /// and is stored; any other state ends the run with `IncorrectState`, a
    /// load failure with its error and a failed store with `Repo`.
    fn resume(&self, state: State, reply: Reply) -> (r: (State, Step<Response, Error>))
        ensures
            match (state, reply) {
                (State::AwaitingRecord { id }, Reply::LatestSignupState(loaded)) => match loaded {
                    Err(e) => r.0 is Finished && r.1 == Step::<Response, Error>::Finish(
                        Err(load_failure(e, id)),
                    ),
                    Ok(record) => if Failed::<EmailVerified>::admits(record.state) {
                        &&& r.0 == (State::AwaitingSave { id })
                        &&& record.state matches SignupStateEnum::Failed { previous_state, .. }
                        &&& saves_signup_state(r.1, record.id, *previous_state, false)
                    } else {
                        r.0 is Finished && r.1 == Step::<Response, Error>::Finish(
                            Err(Error::IncorrectState(id)),
                        )
                    },
                },
                (State::AwaitingSave { id }, Reply::SignupStateSaved(saved)) => {
                    &&& r.0 is Finished
                    &&& r.1 == Step::<Response, Error>::Finish(
                        match saved {
                            Ok(_) => Ok(Response { id }),
                            Err(_) => Err(Error::Repo),
                        },
                    )
                },
                _ => false,
            },
    {
        match state {
            State::AwaitingRecord { id } => match reply {
                Reply::LatestSignupState(loaded) => Self::on_record(id, loaded),
                _ => {
                    proof {
                        assert(false);
                    }
                    (State::Finished, Step::Finish(Err(Error::Repo)))
                },
            },
            State::AwaitingSave { id } => match reply {
                Reply::SignupStateSaved(Ok(_)) => (State::Finished, Step::Finish(Ok(Response { id }))),
                Reply::SignupStateSaved(Err(e)) => (
                    State::Finished,
                    Step::Finish(Err(Error::from(e))),
                ),
                _ => {
                    proof {
                        assert(false);
                    }
                    (State::Finished, Step::Finish(Err(Error::Repo)))
                },
            },
            State::Finished => {
                proof {
                    assert(false);
                }
                (State::Finished, Step::Finish(Err(Error::Repo)))
            },
        }
    }
}

} // verus!
