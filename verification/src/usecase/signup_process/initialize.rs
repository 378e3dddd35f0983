//! Starts a signup process for an email address.
use crate::entity::auth_strategy::AuthStrategy;
use crate::entity::signup_process::{clock_now, Id, Initialized, SignupProcess, SignupStateEnum};
use crate::entity::user::{Email, Id as UserId};
use crate::gateway::database::signup_process::{Record, SaveError};
use crate::usecase::command::{saved_entry, Command, Reply, ReplyKind, Step};
use crate::usecase::validation::{
    check, check_field, into_validation_result, lacks_email_shape, satisfies, Field,
    RequestInvalidity, Rule,
};
use crate::usecase::Usecase;
use crate::value_object::Timestamp;
use vstd::prelude::*;
use vstd::std_specs::convert::FromSpecImpl;

verus! {

#[derive(Clone, Debug)]
pub struct Request {
    pub email: String,
}

impl Request {
    /// The email must be an email address.
    pub fn validate(&self) -> (r: Result<(), RequestInvalidity>)
        ensures
            r is Ok <==> check(Field::Email, Rule::Email, self.email@).len() == 0,
            r matches Err(inv) ==> inv@ == check(Field::Email, Rule::Email, self.email@),
            lacks_email_shape(self.email@) ==> !satisfies(Rule::Email, self.email@),
    {
        let mut violations = Vec::new();
        check_field(Field::Email, Rule::Email, self.email.as_str(), &mut violations);
        assert(violations@ =~= Seq::empty() + violations@);
        into_validation_result(violations)
    }
}

#[derive(Clone, Copy, Debug)]
pub struct Response {
    pub id: Id,
}

pub struct Initialize;

#[derive(Clone, Debug, PartialEq, Eq)]
pub enum Error {
    Repo,
    NewId,
    EmailInvalidity(RequestInvalidity),
}

impl From<SaveError> for Error {
    fn from(err: SaveError) -> (e: Self) {
        match err {
            SaveError::Connection => Error::Repo,
        }
    }
}

impl FromSpecImpl<SaveError> for Error {
    open spec fn obeys_from_spec() -> bool {
        true
    }

    open spec fn from_spec(err: SaveError) -> Self {
        Error::Repo
    }
}

/// Where a run stands.
#[derive(Debug)]
pub enum State {
    /// Getting a new process id.
    AwaitingId { email: String },
    /// Storing the new process.
    AwaitingSave { id: Id },
    Finished,
}

pub open spec fn awaits(state: State) -> Option<ReplyKind> {
    match state {
        State::AwaitingId { .. } => Some(ReplyKind::NewSignupId),
        State::AwaitingSave { .. } => Some(ReplyKind::SignupStateSaved),
        State::Finished => None,
    }
}

/// The step that stores the new process `id` for `email`, entering
/// `Initialized` at `now`.
pub open spec fn new_process_step(
    id: Id,
    email: Seq<char>,
    now: Timestamp,
    r: (State, Step<Response, Error>),
) -> bool {
    &&& r.0 == (State::AwaitingSave { id })
    &&& r.1 matches Step::Run(Command::SaveLatestSignupState { record, in_transaction })
    &&& record.id == id
    &&& !in_transaction
    &&& record.state matches SignupStateEnum::Initialized { email: e }
    &&& e@ == email
    &&& record.entered_at == now
}

impl Initialize {
    /// Stores the new process `id` for `email`, initialized at `now`.
    pub fn store_new(id: Id, email: &str, now: Timestamp) -> (r: (State, Step<Response, Error>))
        ensures
            new_process_step(id, email@, now, r),
    {
        let process = SignupProcess::new_at(id, Email::new(email), now);
        (
            State::AwaitingSave { id },
            Step::Run(
                Command::SaveLatestSignupState {
                    record: Record::from_process(process),
                    in_transaction: false,
                },
            ),
        )
    }
}

/// A new process enters `Initialized` at the instant of the step that stores
/// it: the stored entry time is that instant, so steps at two instants store
/// the same entry time exactly when the instants are the same.
pub proof fn lemma_new_process_enters_at_step_instant(
    id: Id,
    email: Seq<char>,
    n1: Timestamp,
    n2: Timestamp,
    r: (State, Step<Response, Error>),
    s: (State, Step<Response, Error>),
)
    requires
        new_process_step(id, email, n1, r),
        new_process_step(id, email, n2, s),
    ensures
        saved_entry(r.1) == Some(n1),
        saved_entry(r.1) == saved_entry(s.1) <==> n1 == n2,
{
}

impl Usecase for Initialize {
    type Request = Request;
    type Response = Response;
    type Error = Error;
    type State = State;

    /// Signing up is open to everyone.
    open spec fn strategy(&self) -> AuthStrategy {
        AuthStrategy::Public
    }

    open spec fn owner_of(&self, req: Request) -> Option<UserId> {
        None
    }

    open spec fn awaits(&self, state: State) -> Option<ReplyKind> {
        awaits(state)
    }

    fn new() -> Self {
        Initialize
    }

    fn auth_strategy(&self) -> (strategy: AuthStrategy) {
        AuthStrategy::Public
    }

    fn extract_owner(&self, req: &Request) -> (owner: Option<UserId>) {
        None
    }

    fn awaited(&self, state: &State) -> (kind: Option<ReplyKind>) {
        match state {
            State::AwaitingId { .. } => Some(ReplyKind::NewSignupId),
            State::AwaitingSave { .. } => Some(ReplyKind::SignupStateSaved),
            State::Finished => None,
        }
    }

    /// Checks the email, then asks for a new process id.
    fn start(&self, req: Request) -> (r: (State, Step<Response, Error>))
        ensures
            if check(Field::Email, Rule::Email, req.email@).len() == 0 {
                &&& r.0 == (State::AwaitingId { email: req.email })
                &&& r.1 == Step::<Response, Error>::Run(Command::NewSignupId)
            } else {
                &&& r.0 is Finished
                &&& r.1 matches Step::Finish(Err(Error::EmailInvalidity(inv)))
                &&& inv@ == check(Field::Email, Rule::Email, req.email@)
            },
            lacks_email_shape(req.email@) ==> !satisfies(Rule::Email, req.email@),
    {
        match req.validate() {
            Err(inv) => (State::Finished, Step::Finish(Err(Error::EmailInvalidity(inv)))),
            Ok(_) => (State::AwaitingId { email: req.email }, Step::Run(Command::NewSignupId)),
        }
    }

    /// A new process with the new id is stored in `Initialized` for the
    /// email, and its id returned; without an id the run ends with `NewId`,
    /// and a failed store with `Repo`.
    fn resume(&self, state: State, reply: Reply) -> (r: (State, Step<Response, Error>))
        ensures
            match (state, reply) {
                (State::AwaitingId { email }, Reply::NewSignupId(generated)) => match generated {
                    Ok(id) => {
                        &&& r.0 == (State::AwaitingSave { id })
                        &&& r.1 matches Step::Run(
                            Command::SaveLatestSignupState { record, in_transaction },
                        )
                        &&& record.id == id
                        &&& !in_transaction
                        &&& record.state matches SignupStateEnum::Initialized { email: e }
                        &&& e@ == email@
                    },
                    Err(_) => r.0 is Finished && r.1 == Step::<Response, Error>::Finish(
                        Err(Error::NewId),
                    ),
                },
                (State::AwaitingSave { id }, Reply::SignupStateSaved(saved)) => {
                    &&& r.0 is Finished
                    &&& r.1 == Step::<Response, Error>::Finish(
                        match saved {
                            Ok(_) => Ok(Response { id }),
                            Err(_) => Err(Error::Repo),
                        },
                    )
                },
                _ => false,
            },
    {
        match state {
            State::AwaitingId { email } => match reply {
                Reply::NewSignupId(Ok(id)) => {
                    let now = clock_now();
                    Self::store_new(id, email.as_str(), now)
                },
                Reply::NewSignupId(Err(_)) => (State::Finished, Step::Finish(Err(Error::NewId))),
                _ => {
                    proof {
                        assert(false);
                    }
                    (State::Finished, Step::Finish(Err(Error::Repo)))
                },
            },
            State::AwaitingSave { id } => match reply {
                Reply::SignupStateSaved(Ok(_)) => (State::Finished, Step::Finish(Ok(Response { id }))),
                Reply::SignupStateSaved(Err(e)) => (
                    State::Finished,
                    Step::Finish(Err(Error::from(e))),
                ),
                _ => {
                    proof {
                        assert(false);
                    }
                    (State::Finished, Step::Finish(Err(Error::Repo)))
                },
            },
            State::Finished => {
                proof {
                    assert(false);
                }
                (State::Finished, Step::Finish(Err(Error::Repo)))
            },
        }
    }
}

} // verus!
