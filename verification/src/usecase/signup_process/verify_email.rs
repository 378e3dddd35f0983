//! Verifies the email of a signup process with the token that was sent.
use crate::entity::auth_strategy::AuthStrategy;
use crate::entity::signup_process::{
    clock_now, EmailVerified, Error as SignupProcessError, Failed, Id, SignupProcess, SignupStateEnum,
    SignupStateTrait, VerificationEmailSent,
};
use crate::entity::user::Id as UserId;
use crate::gateway::database::signup_process::{GetError, Record, SaveError};
use crate::gateway::database::token::VerifyError as TokenRepoError;
use crate::usecase::command::{
    awaited_after, saved_entry, saves_signup_state, Command, Reply, ReplyKind, Step,
};
use crate::usecase::validation::{
    check, check_field, into_validation_result, Field, RequestInvalidity, Rule,
};
use crate::usecase::Usecase;
use crate::value_object::Timestamp;
use vstd::prelude::*;
use vstd::std_specs::convert::FromSpecImpl;

verus! {

/// The bounds on the length of a verification token.
pub open spec fn token_rule() -> Rule {
    Rule::Length { min: 1, max: 255 }
}

#[derive(Clone, Debug)]
pub struct Request {
    pub id: Id,
    pub token: String,
}

impl Request {
    /// The token must have between 1 and 255 characters.
    pub fn validate(&self) -> (r: Result<(), RequestInvalidity>)
        ensures
            r is Ok <==> check(Field::Token, token_rule(), self.token@).len() == 0,
            r matches Err(inv) ==> inv@ == check(Field::Token, token_rule(), self.token@),
    {
        let mut violations = Vec::new();
        check_field(Field::Token, Rule::Length { min: 1, max: 255 }, self.token.as_str(), &mut violations);
        assert(violations@ =~= Seq::empty() + violations@);
        into_validation_result(violations)
    }
}

#[derive(Clone, Copy, Debug)]
pub struct Response {
    pub id: Id,
}

pub struct VerifyEmail;

#[derive(Clone, Debug, PartialEq, Eq)]
pub enum Error {
    NotFound(Id),
    IncorrectState(Id),
    Repo,
    TokenRepoError(TokenRepoError),
    TokenInvalidity(RequestInvalidity),
}

/// The error for a failed load of the process `id`.
pub open spec fn load_failure(err: GetError, id: Id) -> Error {
    match err {
        GetError::NotFound => Error::NotFound(id),
        GetError::IncorrectState => Error::IncorrectState(id),
        GetError::Connection => Error::Repo,
    }
}

impl From<(GetError, Id)> for Error {
    fn from(value: (GetError, Id)) -> (e: Self) {
        let (err, id) = value;
        match err {
            GetError::NotFound => Error::NotFound(id),
            GetError::IncorrectState => Error::IncorrectState(id),
            GetError::Connection => Error::Repo,
        }
    }
}

impl FromSpecImpl<(GetError, Id)> for Error {
    open spec fn obeys_from_spec() -> bool {
        true
    }

    open spec fn from_spec(value: (GetError, Id)) -> Self {
        load_failure(value.0, value.1)
    }
}

impl From<SaveError> for Error {
    fn from(err: SaveError) -> (e: Self) {
        Error::Repo
    }
}

impl FromSpecImpl<SaveError> for Error {
    open spec fn obeys_from_spec() -> bool {
        true
    }

    open spec fn from_spec(err: SaveError) -> Self {
        Error::Repo
    }
}

/// Where a run stands.
#[derive(Debug)]
pub enum State {
    /// Beginning the transaction that the run works in.
    AwaitingTransaction { id: Id, token: String },
    /// Loading the latest state of the process `id`.
    AwaitingRecord { id: Id, token: String },
    /// Verifying the token for the process's email.
    AwaitingVerification { id: Id, process: SignupProcess<VerificationEmailSent> },
    /// Storing the process failed with `VerificationTimedOut`.
    AwaitingExpiredSave { error: TokenRepoError },
    /// Committing after the token was refused; the run then ends with `error`.
    AwaitingRefusalCommit { error: TokenRepoError },
    /// Storing the process in `EmailVerified`.
    AwaitingSave { id: Id },
    /// Committing the verified process.
    AwaitingCommit { id: Id },
    Finished,
}

pub open spec fn awaits(state: State) -> Option<ReplyKind> {
    match state {
        State::AwaitingTransaction { .. } => Some(ReplyKind::TransactionBegun),
        State::AwaitingRecord { .. } => Some(ReplyKind::LatestSignupState),
        State::AwaitingVerification { .. } => Some(ReplyKind::TokenVerified),
        State::AwaitingExpiredSave { .. } => Some(ReplyKind::SignupStateSaved),
        State::AwaitingRefusalCommit { .. } => Some(ReplyKind::TransactionCommitted),
        State::AwaitingSave { .. } => Some(ReplyKind::SignupStateSaved),
        State::AwaitingCommit { .. } => Some(ReplyKind::TransactionCommitted),
        State::Finished => None,
    }
}

/// The step that follows the token check `verified` for `process`, taken at
/// `now`: on success the process is stored in `EmailVerified`, on an expired
/// token it is stored failed with `VerificationTimedOut`, either entering its
/// new state at `now`; any other refusal commits.
pub open spec fn verification_step(
    id: Id,
    process: SignupProcess<VerificationEmailSent>,
    verified: Result<(), TokenRepoError>,
    now: Timestamp,
    r: (State, Step<Response, Error>),
) -> bool {
    match verified {
        Ok(_) => {
            &&& r.0 == (State::AwaitingSave { id })
            &&& saves_signup_state(
                r.1,
                process.spec_id(),
                (EmailVerified { email: process.spec_state().email }).as_state(),
                true,
            )
            &&& saved_entry(r.1) == Some(now)
        },
        Err(e) => if e == TokenRepoError::TokenExpired {
            &&& r.0 == (State::AwaitingExpiredSave { error: e })
            &&& saves_signup_state(
                r.1,
                process.spec_id(),
                (Failed {
                    previous_state: process.spec_state(),
                    error: SignupProcessError::VerificationTimedOut,
                }).as_state(),
                true,
            )
            &&& saved_entry(r.1) == Some(now)
        } else {
            &&& r.0 == (State::AwaitingRefusalCommit { error: e })
            &&& r.1 == Step::<Response, Error>::Run(Command::CommitTransaction)
        },
    }
}

/// A verified email enters `EmailVerified` at the instant of the step that
/// stores it, not at the instant the process entered
/// `VerificationEmailSent`: for two processes that differ at most in their
/// entry times, the stored entry times agree exactly when the steps' instants
/// do.
pub proof fn lemma_verified_email_enters_at_step_instant(
    id: Id,
    p: SignupProcess<VerificationEmailSent>,
    q: SignupProcess<VerificationEmailSent>,
    n1: Timestamp,
    n2: Timestamp,
    r: (State, Step<Response, Error>),
    s: (State, Step<Response, Error>),
)
    requires
        p.spec_id() == q.spec_id(),
        p.spec_state() == q.spec_state(),
        verification_step(id, p, Ok(()), n1, r),
        verification_step(id, q, Ok(()), n2, s),
    ensures
        saved_entry(r.1) == Some(n1),
        saved_entry(r.1) == saved_entry(s.1) <==> n1 == n2,
{
}

impl VerifyEmail {
    fn on_record(id: Id, loaded: Result<Record, GetError>, token: String) -> (r: (
        State,
        Step<Response, Error>,
    ))
        ensures
            awaits(r.0) == awaited_after(r.1),
            match loaded {
                Err(e) => r.0 is Finished && r.1 == Step::<Response, Error>::Finish(
                    Err(load_failure(e, id)),
                ),
                Ok(record) => if record.state is VerificationEmailSent {
                    &&& r.0 matches State::AwaitingVerification { id: i, process } && i == id
                        && record.describes(process)
                    &&& r.1 matches Step::Run(
                        Command::VerifyToken { email, token: t, in_transaction },
                    ) && record.state matches SignupStateEnum::VerificationEmailSent { email: e }
                        && email@ == e@ && t@ == token@ && in_transaction
                } else {
                    r.0 is Finished && r.1 == Step::<Response, Error>::Finish(
                        Err(Error::IncorrectState(id)),
                    )
                },
            },
    {
        match loaded {
            Err(e) => (State::Finished, Step::Finish(Err(Error::from((e, id))))),
            Ok(record) => match record.into_process::<VerificationEmailSent>() {
                Err(e) => (State::Finished, Step::Finish(Err(Error::from((e, id))))),
                Ok(process) => {
                    let email = process.state().email.as_str().to_owned();
                    (
                        State::AwaitingVerification { id, process },
                        Step::Run(Command::VerifyToken { email, token, in_transaction: true }),
                    )
                },
            },
        }
    }

    fn on_verification(
        id: Id,
        process: SignupProcess<VerificationEmailSent>,
        verified: Result<(), TokenRepoError>,
    ) -> (r: (State, Step<Response, Error>))
        ensures
            awaits(r.0) == awaited_after(r.1),
            match verified {
                Ok(_) => {
                    &&& r.0 == (State::AwaitingSave { id })
                    &&& saves_signup_state(
                        r.1,
                        process.spec_id(),
                        (EmailVerified { email: process.spec_state().email }).as_state(),
                        true,
                    )
                },
                Err(e) => if e == TokenRepoError::TokenExpired {
                    &&& r.0 == (State::AwaitingExpiredSave { error: e })
                    &&& saves_signup_state(
                        r.1,
                        process.spec_id(),
                        (Failed {
                            previous_state: process.spec_state(),
                            error: SignupProcessError::VerificationTimedOut,
                        }).as_state(),
                        true,
                    )
                } else {
                    &&& r.0 == (State::AwaitingRefusalCommit { error: e })
                    &&& r.1 == Step::<Response, Error>::Run(Command::CommitTransaction)
                },
            },
    {
        let now = clock_now();
        Self::after_verification(id, process, verified, now)
    }

    /// What follows the token check `verified` for `process`, at `now`.
    pub fn after_verification(
        id: Id,
        process: SignupProcess<VerificationEmailSent>,
        verified: Result<(), TokenRepoError>,
        now: Timestamp,
    ) -> (r: (State, Step<Response, Error>))
        ensures
            awaits(r.0) == awaited_after(r.1),
            verification_step(id, process, verified, now, r),
    {
        match verified {
            Err(e) => {
                if e == TokenRepoError::TokenExpired {
                    let failed = process.fail_at(SignupProcessError::VerificationTimedOut, now);
                    (
                        State::AwaitingExpiredSave { error: e },
                        Step::Run(
                            Command::SaveLatestSignupState {
                                record: Record::from_process(failed),
                                in_transaction: true,
                            },
                        ),
                    )
                } else {
                    (State::AwaitingRefusalCommit { error: e }, Step::Run(Command::CommitTransaction))
                }
            },
            Ok(_) => {
                let process = process.verify_email_at(now);
                (
                    State::AwaitingSave { id },
                    Step::Run(
                        Command::SaveLatestSignupState {
                            record: Record::from_process(process),
                            in_transaction: true,
                        },
                    ),
                )
            },
        }
    }
}

impl Usecase for VerifyEmail {
    type Request = Request;
    type Response = Response;
    type Error = Error;
    type State = State;

    open spec fn strategy(&self) -> AuthStrategy {
        AuthStrategy::Public
    }

    open spec fn owner_of(&self, req: Request) -> Option<UserId> {
        None
    }

    open spec fn awaits(&self, state: State) -> Option<ReplyKind> {
        awaits(state)
    }

    fn new() -> Self {
        VerifyEmail
    }

    fn auth_strategy(&self) -> (strategy: AuthStrategy) {
        AuthStrategy::Public
    }

    fn extract_owner(&self, req: &Request) -> (owner: Option<UserId>) {
        None
    }

    fn awaited(&self, state: &State) -> (kind: Option<ReplyKind>) {
        match state {
            State::AwaitingTransaction { .. } => Some(ReplyKind::TransactionBegun),
            State::AwaitingRecord { .. } => Some(ReplyKind::LatestSignupState),
            State::AwaitingVerification { .. } => Some(ReplyKind::TokenVerified),
            State::AwaitingExpiredSave { .. } => Some(ReplyKind::SignupStateSaved),
            State::AwaitingRefusalCommit { .. } => Some(ReplyKind::TransactionCommitted),
            State::AwaitingSave { .. } => Some(ReplyKind::SignupStateSaved),
            State::AwaitingCommit { .. } => Some(ReplyKind::TransactionCommitted),
            State::Finished => None,
        }
    }

    /// Checks the token, then begins a transaction.
    fn start(&self, req: Request) -> (r: (State, Step<Response, Error>))
        ensures
            if check(Field::Token, token_rule(), req.token@).len() == 0 {
                &&& r.0 == (State::AwaitingTransaction { id: req.id, token: req.token })
                &&& r.1 == Step::<Response, Error>::Run(Command::BeginTransaction)
            } else {
                &&& r.0 is Finished
                &&& r.1 matches Step::Finish(Err(Error::TokenInvalidity(inv)))
                &&& inv@ == check(Field::Token, token_rule(), req.token@)
            },
    {
        match req.validate() {
            Err(inv) => (State::Finished, Step::Finish(Err(Error::TokenInvalidity(inv)))),
            Ok(_) => (
                State::AwaitingTransaction { id: req.id, token: req.token },
                Step::Run(Command::BeginTransaction),
            ),
        }
    }

    /// In the transaction: the process must be in `VerificationEmailSent`;
    /// the token is verified for its email; on success the process moves to
    /// `EmailVerified`. An expired token stores the process failed with
    /// `VerificationTimedOut`; any refused token is committed and ends the
    /// run with its error. A load failure ends the run at once; a failed
    /// store or commit ends it with `Repo`.
    fn resume(&self, state: State, reply: Reply) -> (r: (State, Step<Response, Error>))
        ensures
            match (state, reply) {
                (State::AwaitingTransaction { id, token }, Reply::TransactionBegun) => {
                    &&& r.0 == (State::AwaitingRecord { id, token })
                    &&& r.1 == Step::<Response, Error>::Run(
                        Command::GetLatestSignupState { id, in_transaction: true },
                    )
                },
                (State::AwaitingRecord { id, token }, Reply::LatestSignupState(loaded)) => match loaded {
                    Err(e) => r.0 is Finished && r.1 == Step::<Response, Error>::Finish(
                        Err(load_failure(e, id)),
                    ),
                    Ok(record) => if record.state is VerificationEmailSent {
                        &&& r.0 matches State::AwaitingVerification { id: i, process } && i == id
                            && record.describes(process)
                        &&& r.1 matches Step::Run(
                            Command::VerifyToken { email, token: t, in_transaction },
                        ) && record.state matches SignupStateEnum::VerificationEmailSent { email: e }
                            && email@ == e@ && t@ == token@ && in_transaction
                    } else {
                        r.0 is Finished && r.1 == Step::<Response, Error>::Finish(
                            Err(Error::IncorrectState(id)),
                        )
                    },
                },
                (State::AwaitingVerification { id, process }, Reply::TokenVerified(verified)) => match verified {
                    Ok(_) => {
                        &&& r.0 == (State::AwaitingSave { id })
                        &&& saves_signup_state(
                            r.1,
                            process.spec_id(),
                            (EmailVerified { email: process.spec_state().email }).as_state(),
                            true,
                        )
                    },
                    Err(e) => if e == TokenRepoError::TokenExpired {
                        &&& r.0 == (State::AwaitingExpiredSave { error: e })
                        &&& saves_signup_state(
                            r.1,
                            process.spec_id(),
                            (Failed {
                                previous_state: process.spec_state(),
                                error: SignupProcessError::VerificationTimedOut,
                            }).as_state(),
                            true,
                        )
                    } else {
                        &&& r.0 == (State::AwaitingRefusalCommit { error: e })
                        &&& r.1 == Step::<Response, Error>::Run(Command::CommitTransaction)
                    },
                },
                (State::AwaitingExpiredSave { error }, Reply::SignupStateSaved(saved)) => match saved {
                    Ok(_) => {
                        &&& r.0 == (State::AwaitingRefusalCommit { error })
                        &&& r.1 == Step::<Response, Error>::Run(Command::CommitTransaction)
                    },
                    Err(_) => r.0 is Finished && r.1 == Step::<Response, Error>::Finish(
                        Err(Error::Repo),
                    ),
                },
                (State::AwaitingRefusalCommit { error }, Reply::TransactionCommitted(committed)) => {
                    &&& r.0 is Finished
                    &&& r.1 == Step::<Response, Error>::Finish(
                        Err(
                            match committed {
                                Ok(_) => Error::TokenRepoError(error),
                                Err(_) => Error::Repo,
                            },
                        ),
                    )
                },
                (State::AwaitingSave { id }, Reply::SignupStateSaved(saved)) => match saved {
                    Ok(_) => {
                        &&& r.0 == (State::AwaitingCommit { id })
                        &&& r.1 == Step::<Response, Error>::Run(Command::CommitTransaction)
                    },
                    Err(_) => r.0 is Finished && r.1 == Step::<Response, Error>::Finish(
                        Err(Error::Repo),
                    ),
                },
                (State::AwaitingCommit { id }, Reply::TransactionCommitted(committed)) => {
                    &&& r.0 is Finished
                    &&& r.1 == Step::<Response, Error>::Finish(
                        match committed {
                            Ok(_) => Ok(Response { id }),
                            Err(_) => Err(Error::Repo),
                        },
                    )
                },
                _ => false,
            },
    {
        match state {
            State::AwaitingTransaction { id, token } => match reply {
                Reply::TransactionBegun => (
                    State::AwaitingRecord { id, token },
                    Step::Run(Command::GetLatestSignupState { id, in_transaction: true }),
                ),
                _ => {
                    proof {
                        assert(false);
                    }
                    (State::Finished, Step::Finish(Err(Error::Repo)))
                },
            },
            State::AwaitingRecord { id, token } => match reply {
                Reply::LatestSignupState(loaded) => Self::on_record(id, loaded, token),
                _ => {
                    proof {
                        assert(false);
                    }
                    (State::Finished, Step::Finish(Err(Error::Repo)))
                },
            },
            State::AwaitingVerification { id, process } => match reply {
                Reply::TokenVerified(verified) => Self::on_verification(id, process, verified),
                _ => {
                    proof {
                        assert(false);
                    }
                    (State::Finished, Step::Finish(Err(Error::Repo)))
                },
            },
            State::AwaitingExpiredSave { error } => match reply {
                Reply::SignupStateSaved(Ok(_)) => (
                    State::AwaitingRefusalCommit { error },
                    Step::Run(Command::CommitTransaction),
                ),
                Reply::SignupStateSaved(Err(e)) => (
                    State::Finished,
                    Step::Finish(Err(Error::from(e))),
                ),
                _ => {
                    proof {
                        assert(false);
                    }
                    (State::Finished, Step::Finish(Err(Error::Repo)))
                },
            },
            State::AwaitingRefusalCommit { error } => match reply {
                Reply::TransactionCommitted(Ok(_)) => (
                    State::Finished,
                    Step::Finish(Err(Error::TokenRepoError(error))),
                ),
                Reply::TransactionCommitted(Err(_)) => (
                    State::Finished,
                    Step::Finish(Err(Error::from(SaveError::Connection))),
                ),
                _ => {
                    proof {
                        assert(false);
                    }
                    (State::Finished, Step::Finish(Err(Error::Repo)))
                },
            },
            State::AwaitingSave { id } => match reply {
                Reply::SignupStateSaved(Ok(_)) => (
                    State::AwaitingCommit { id },
                    Step::Run(Command::CommitTransaction),
                ),
                Reply::SignupStateSaved(Err(e)) => (
                    State::Finished,
                    Step::Finish(Err(Error::from(e))),
                ),
                _ => {
                    proof {
                        assert(false);
                    }
                    (State::Finished, Step::Finish(Err(Error::Repo)))
                },
            },
            State::AwaitingCommit { id } => match reply {
                Reply::TransactionCommitted(Ok(_)) => (
                    State::Finished,
                    Step::Finish(Ok(Response { id })),
                ),
                Reply::TransactionCommitted(Err(_)) => (
                    State::Finished,
                    Step::Finish(Err(Error::from(SaveError::Connection))),
                ),
                _ => {
                    proof {
                        assert(false);
                    }
                    (State::Finished, Step::Finish(Err(Error::Repo)))
                },
            },
            State::Finished => {
                proof {
                    assert(false);
                }
                (State::Finished, Step::Finish(Err(Error::Repo)))
            },
        }
    }
}

} // verus!
