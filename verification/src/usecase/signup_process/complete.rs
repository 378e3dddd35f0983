//! Completes a signup process whose email was verified: the user is created.
use crate::entity::auth_strategy::AuthStrategy;
use crate::entity::signup_process::{
    clock_now, Completed, EmailVerified, Error as SignupProcessError, Failed, Id, SignupProcess,
    SignupStateTrait,
};
use crate::entity::user::{Id as UserId, Password, User, UserName};
use crate::gateway::database::signup_process::{GetError, Record, SaveError};
use crate::gateway::database::user::{self, SaveError as UserSaveError};
use crate::usecase::command::{awaited_after, saves_signup_state, Command, Reply, ReplyKind, Step};
use crate::usecase::validation::{
    check, check_field, into_validation_result, Field, RequestInvalidity, Rule,
};
use crate::usecase::Usecase;
use crate::value_object::timestamp::{later_than, moved_back, Timestamp, NANOS_PER_SEC};
use crate::value_object::Role;
use vstd::prelude::*;
use vstd::std_specs::convert::FromSpecImpl;

verus! {

/// How long a process may stay in `EmailVerified` before completion times
/// out: one day, in seconds.
pub const COMPLETION_WINDOW_SECS: i64 = 86_400i64;

/// Whether, at instant `now`, a process that entered its state at
/// `entered_at` has waited longer than the completion window: `now` moved
/// back by one day is later than `entered_at`.
pub open spec fn completion_expired(now: Timestamp, entered_at: Timestamp) -> bool {
    later_than(moved_back(now, COMPLETION_WINDOW_SECS as int), entered_at)
}

/// Whether, at instant `now`, the process that entered its state at
/// `entered_at` has waited longer than the completion window.
pub fn is_completion_expired(now: Timestamp, entered_at: Timestamp) -> (expired: bool)
    ensures
        expired == completion_expired(now, entered_at),
{
    let (secs, nanos): (i128, i128) = if now.nanos >= NANOS_PER_SEC {
        (
            (now.secs as i128) + 1 - (COMPLETION_WINDOW_SECS as i128),
            (now.nanos as i128) - (NANOS_PER_SEC as i128),
        )
    } else {
        ((now.secs as i128) - (COMPLETION_WINDOW_SECS as i128), now.nanos as i128)
    };
    secs > (entered_at.secs as i128) || (secs == (entered_at.secs as i128) && nanos > (
    entered_at.nanos as i128))
}

/// The bounds on the length of a user name.
pub open spec fn username_rule() -> Rule {
    Rule::Length { min: 1, max: 30 }
}

/// The bounds on the length of a password.
pub open spec fn password_rule() -> Rule {
    Rule::Length { min: 5, max: 60 }
}

#[derive(Clone, Debug)]
pub struct Request {
    pub id: Id,
    pub username: String,
    pub password: String,
}

impl Request {
    /// The violations of the request's rules, in field order.
    pub open spec fn violations(self) -> Seq<(Field, Rule, Seq<char>)> {
        check(Field::Username, username_rule(), self.username@) + check(
            Field::Password,
            password_rule(),
            self.password@,
        )
    }

    /// The user name must have between 1 and 30 characters, the password
    /// between 5 and 60.
    pub fn validate(&self) -> (r: Result<(), RequestInvalidity>)
        ensures
            r is Ok <==> self.violations().len() == 0,
            r matches Err(inv) ==> inv@ == self.violations(),
    {
        let mut violations = Vec::new();
        check_field(
            Field::Username,
            Rule::Length { min: 1, max: 30 },
            self.username.as_str(),
            &mut violations,
        );
        check_field(
            Field::Password,
            Rule::Length { min: 5, max: 60 },
            self.password.as_str(),
            &mut violations,
        );
        assert(crate::usecase::validation::violation_views(violations@) =~= self.violations());
        into_validation_result(violations)
    }
}

#[derive(Clone, Debug)]
pub struct Response {
    pub record: user::Record,
}

pub struct Complete;

#[derive(Clone, Debug, PartialEq, Eq)]
pub enum Error {
    Repo,
    NotFound(Id),
    IncorrectState(Id),
    CompletionTimedOut,
    Validation(RequestInvalidity),
}

/// The error for a failed load of the process `id`.
pub open spec fn load_failure(err: GetError, id: Id) -> Error {
    match err {
        GetError::NotFound => Error::NotFound(id),
        GetError::IncorrectState => Error::IncorrectState(id),
        GetError::Connection => Error::Repo,
    }
}

impl From<(GetError, Id)> for Error {
    fn from(value: (GetError, Id)) -> (e: Self) {
        let (err, id) = value;
        match err {
            GetError::NotFound => Error::NotFound(id),
            GetError::IncorrectState => Error::IncorrectState(id),
            GetError::Connection => Error::Repo,
        }
    }
}

impl FromSpecImpl<(GetError, Id)> for Error {
    open spec fn obeys_from_spec() -> bool {
        true
    }

    open spec fn from_spec(value: (GetError, Id)) -> Self {
        load_failure(value.0, value.1)
    }
}

impl From<SaveError> for Error {
    fn from(err: SaveError) -> (e: Self) {
        Error::Repo
    }
}

impl FromSpecImpl<SaveError> for Error {
    open spec fn obeys_from_spec() -> bool {
        true
    }

    open spec fn from_spec(err: SaveError) -> Self {
        Error::Repo
    }
}

impl From<UserSaveError> for Error {
    fn from(err: UserSaveError) -> (e: Self) {
        Error::Repo
    }
}

impl FromSpecImpl<UserSaveError> for Error {
    open spec fn obeys_from_spec() -> bool {
        true
    }

    open spec fn from_spec(err: UserSaveError) -> Self {
        Error::Repo
    }
}

/// Where a run stands.
#[derive(Debug)]
pub enum State {
    /// Beginning the transaction.
    AwaitingTransaction { req: Request },
    /// Loading the latest state of the process.
    AwaitingRecord { req: Request },
    /// Storing the process failed with `CompletionTimedOut`.
    AwaitingTimeoutSave,
    /// Committing after the time-out.
    AwaitingTimeoutCommit,
    /// Storing the new user.
    AwaitingUserSave { process: SignupProcess<Completed>, user: User },
    /// Storing the process in `Completed`.
    AwaitingProcessSave { user: User },
    /// Committing the completed process.
    AwaitingCommit { user: User },
    Finished,
}

pub open spec fn awaits(state: State) -> Option<ReplyKind> {
    match state {
        State::AwaitingTransaction { .. } => Some(ReplyKind::TransactionBegun),
        State::AwaitingRecord { .. } => Some(ReplyKind::LatestSignupState),
        State::AwaitingTimeoutSave => Some(ReplyKind::SignupStateSaved),
        State::AwaitingTimeoutCommit => Some(ReplyKind::TransactionCommitted),
        State::AwaitingUserSave { .. } => Some(ReplyKind::UserSaved),
        State::AwaitingProcessSave { .. } => Some(ReplyKind::SignupStateSaved),
        State::AwaitingCommit { .. } => Some(ReplyKind::TransactionCommitted),
        State::Finished => None,
    }
}

/// The user that completing the process `process` with `req` creates: its id
/// is the process's request id, its role `User`, its email the process's and
/// its name and password those of the request.
pub open spec fn completed_user(user: User, process: SignupProcess<EmailVerified>, req: Request) -> bool {
    &&& user.spec_id()@ == req.id@
    &&& user.spec_role() == Role::User
    &&& user.spec_email() == process.spec_state().email
    &&& user.spec_username()@ == req.username@
    &&& user.spec_password()@ == req.password@
}

/// The step that follows the load of `process` for `req` at time `now`:
/// past the completion window the process is stored failed with
/// `CompletionTimedOut`; otherwise it is completed with the request's name and
/// password and the new user is stored first.
pub open spec fn after_load_step(
    process: SignupProcess<EmailVerified>,
    req: Request,
    now: Timestamp,
    r: (State, Step<Response, Error>),
) -> bool {
    if completion_expired(now, process.spec_entered_at()) {
        &&& r.0 is AwaitingTimeoutSave
        &&& saves_signup_state(
            r.1,
            process.spec_id(),
            (Failed {
                previous_state: process.spec_state(),
                error: SignupProcessError::CompletionTimedOut,
            }).as_state(),
            false,
        )
    } else {
        &&& r.0 matches State::AwaitingUserSave { process: completed, user }
        &&& completed.spec_id() == process.spec_id()
        &&& completed.spec_state().email == process.spec_state().email
        &&& completed.spec_state().username@ == req.username@
        &&& completed.spec_state().password@ == req.password@
        &&& completed_user(user, process, req)
        &&& r.1 matches Step::Run(Command::SaveUser { record }) && record.user == user
    }
}

/// The nanoseconds since the Unix epoch of an instant outside a leap second.
pub open spec fn nanos_since_epoch(t: Timestamp) -> int {
    t.secs * (NANOS_PER_SEC as int) + t.nanos
}

/// Completion times out exactly when more than one day has passed between
/// the process entering `EmailVerified` and the instant of the step: for
/// instants outside leap seconds, more than 86 400 seconds, to the
/// nanosecond.
pub proof fn lemma_completion_times_out_after_one_day(
    process: SignupProcess<EmailVerified>,
    req: Request,
    now: Timestamp,
    r: (State, Step<Response, Error>),
)
    requires
        after_load_step(process, req, now, r),
        now.nanos < NANOS_PER_SEC,
        process.spec_entered_at().nanos < NANOS_PER_SEC,
    ensures
        r.0 is AwaitingTimeoutSave <==> nanos_since_epoch(now) - nanos_since_epoch(
            process.spec_entered_at(),
        ) > 86_400 * 1_000_000_000,
{
    let e = process.spec_entered_at();
    assert(nanos_since_epoch(now) - nanos_since_epoch(e) == (now.secs - e.secs) * 1_000_000_000
        + (now.nanos - e.nanos)) by (nonlinear_arith);
    if now.secs - 86_400 > e.secs {
        assert((now.secs - e.secs) * 1_000_000_000 >= 86_401 * 1_000_000_000) by (nonlinear_arith)
            requires
                now.secs - e.secs >= 86_401,
        ;
    } else if now.secs - 86_400 < e.secs {
        assert((now.secs - e.secs) * 1_000_000_000 <= 86_399 * 1_000_000_000) by (nonlinear_arith)
            requires
                now.secs - e.secs <= 86_399,
        ;
    }
}

impl Complete {
    /// What follows the load of a process in `EmailVerified`, at time `now`:
    /// past the completion window the process is stored failed with
    /// `CompletionTimedOut`; otherwise it is completed with the request's
    /// name and password and the new user is stored first.
    pub fn after_load(process: SignupProcess<EmailVerified>, req: Request, now: Timestamp) -> (r: (
        State,
        Step<Response, Error>,
    ))
        ensures
            awaits(r.0) == awaited_after(r.1),
            after_load_step(process, req, now, r),
    {
        if is_completion_expired(now, process.entered_at()) {
            let failed = process.fail(SignupProcessError::CompletionTimedOut);
            (
                State::AwaitingTimeoutSave,
                Step::Run(
                    Command::SaveLatestSignupState {
                        record: Record::from_process(failed),
                        in_transaction: false,
                    },
                ),
            )
        } else {
            let username = UserName::new(req.username.as_str());
            let password = Password::new(req.password.as_str());
            let process = process.complete(username, password);
            let user = User::new(
                UserId::new(req.id.as_u128()),
                Role::User,
                process.email(),
                process.username(),
                process.password(),
            );
            let record = user::Record { user: user.duplicate() };
            (State::AwaitingUserSave { process, user }, Step::Run(Command::SaveUser { record }))
        }
    }

    fn on_record(req: Request, loaded: Result<Record, GetError>) -> (r: (State, Step<Response, Error>))
        ensures
            awaits(r.0) == awaited_after(r.1),
            match loaded {
                Err(e) => r.0 is Finished && r.1 == Step::<Response, Error>::Finish(
                    Err(load_failure(e, req.id)),
                ),
                Ok(record) => if record.state is EmailVerified {
                    exists|process: SignupProcess<EmailVerified>, now: Timestamp|
                        #[trigger] after_load_step(process, req, now, r) && record.describes(process)
                } else {
                    r.0 is Finished && r.1 == Step::<Response, Error>::Finish(
                        Err(Error::IncorrectState(req.id)),
                    )
                },
            },
    {
        let id = req.id;
        match loaded {
            Err(e) => (State::Finished, Step::Finish(Err(Error::from((e, id))))),
            Ok(record) => match record.into_process::<EmailVerified>() {
                Err(e) => (State::Finished, Step::Finish(Err(Error::from((e, id))))),
                Ok(process) => {
                    let now = clock_now();
                    let r = Self::after_load(process, req, now);
                    assert(after_load_step(process, req, now, r));
                    r
                },
            },
        }
    }
}

impl Usecase for Complete {
    type Request = Request;
    type Response = Response;
    type Error = Error;
    type State = State;

    open spec fn strategy(&self) -> AuthStrategy {
        AuthStrategy::Public
    }

    open spec fn owner_of(&self, req: Request) -> Option<UserId> {
        None
    }

    open spec fn awaits(&self, state: State) -> Option<ReplyKind> {
        awaits(state)
    }

    fn new() -> Self {
        Complete
    }

    fn auth_strategy(&self) -> (strategy: AuthStrategy) {
        AuthStrategy::Public
    }

    fn extract_owner(&self, req: &Request) -> (owner: Option<UserId>) {
        None
    }

    fn awaited(&self, state: &State) -> (kind: Option<ReplyKind>) {
        match state {
            State::AwaitingTransaction { .. } => Some(ReplyKind::TransactionBegun),
            State::AwaitingRecord { .. } => Some(ReplyKind::LatestSignupState),
            State::AwaitingTimeoutSave => Some(ReplyKind::SignupStateSaved),
            State::AwaitingTimeoutCommit => Some(ReplyKind::TransactionCommitted),
            State::AwaitingUserSave { .. } => Some(ReplyKind::UserSaved),
            State::AwaitingProcessSave { .. } => Some(ReplyKind::SignupStateSaved),
            State::AwaitingCommit { .. } => Some(ReplyKind::TransactionCommitted),
            State::Finished => None,
        }
    }

    /// Checks the name and password, then begins a transaction.
    fn start(&self, req: Request) -> (r: (State, Step<Response, Error>))
        ensures
            if req.violations().len() == 0 {
                &&& r.0 == (State::AwaitingTransaction { req })
                &&& r.1 == Step::<Response, Error>::Run(Command::BeginTransaction)
            } else {
                &&& r.0 is Finished
                &&& r.1 matches Step::Finish(Err(Error::Validation(inv)))
                &&& inv@ == req.violations()
            },
    {
        match req.validate() {
            Err(inv) => (State::Finished, Step::Finish(Err(Error::Validation(inv)))),
            Ok(_) => (State::AwaitingTransaction { req }, Step::Run(Command::BeginTransaction)),
        }
    }

    /// The process must be in `EmailVerified`. Within the completion window
    /// it is completed: the new user is stored first, then the process, then
    /// the transaction is committed and the stored user returned. Past the
    /// window the process is stored failed, committed, and the run ends with
    /// `CompletionTimedOut`. A load failure ends the run at once; a failed
    /// store or commit ends it with `Repo`.
    fn resume(&self, state: State, reply: Reply) -> (r: (State, Step<Response, Error>))
        ensures
            match (state, reply) {
                (State::AwaitingTransaction { req }, Reply::TransactionBegun) => {
                    &&& r.0 == (State::AwaitingRecord { req })
                    &&& r.1 == Step::<Response, Error>::Run(
                        Command::GetLatestSignupState { id: req.id, in_transaction: false },
                    )
                },
                (State::AwaitingRecord { req }, Reply::LatestSignupState(loaded)) => match loaded {
                    Err(e) => r.0 is Finished && r.1 == Step::<Response, Error>::Finish(
                        Err(load_failure(e, req.id)),
                    ),
                    Ok(record) => if record.state is EmailVerified {
                        exists|process: SignupProcess<EmailVerified>, now: Timestamp|
                            #[trigger] after_load_step(process, req, now, r) && record.describes(
                                process,
                            )
                    } else {
                        r.0 is Finished && r.1 == Step::<Response, Error>::Finish(
                            Err(Error::IncorrectState(req.id)),
                        )
                    },
                },
                (State::AwaitingTimeoutSave, Reply::SignupStateSaved(saved)) => match saved {
                    Ok(_) => {
                        &&& r.0 is AwaitingTimeoutCommit
                        &&& r.1 == Step::<Response, Error>::Run(Command::CommitTransaction)
                    },
                    Err(_) => r.0 is Finished && r.1 == Step::<Response, Error>::Finish(
                        Err(Error::Repo),
                    ),
                },
                (State::AwaitingTimeoutCommit, Reply::TransactionCommitted(committed)) => {
                    &&& r.0 is Finished
                    &&& r.1 == Step::<Response, Error>::Finish(
                        Err(
                            match committed {
                                Ok(_) => Error::CompletionTimedOut,
                                Err(_) => Error::Repo,
                            },
                        ),
                    )
                },
                (State::AwaitingUserSave { process, user }, Reply::UserSaved(saved)) => match saved {
                    Ok(_) => {
                        &&& r.0 == (State::AwaitingProcessSave { user })
                        &&& saves_signup_state(
                            r.1,
                            process.spec_id(),
                            process.spec_state().as_state(),
                            false,
                        )
                    },
                    Err(_) => r.0 is Finished && r.1 == Step::<Response, Error>::Finish(
                        Err(Error::Repo),
                    ),
                },
                (State::AwaitingProcessSave { user }, Reply::SignupStateSaved(saved)) => match saved {
                    Ok(_) => {
                        &&& r.0 == (State::AwaitingCommit { user })
                        &&& r.1 == Step::<Response, Error>::Run(Command::CommitTransaction)
                    },
                    Err(_) => r.0 is Finished && r.1 == Step::<Response, Error>::Finish(
                        Err(Error::Repo),
                    ),
                },
                (State::AwaitingCommit { user }, Reply::TransactionCommitted(committed)) => {
                    &&& r.0 is Finished
                    &&& r.1 == Step::<Response, Error>::Finish(
                        match committed {
                            Ok(_) => Ok(Response { record: user::Record { user } }),
                            Err(_) => Err(Error::Repo),
                        },
                    )
                },
                _ => false,
            },
    {
        match state {
            State::AwaitingTransaction { req } => match reply {
                Reply::TransactionBegun => {
                    let id = req.id;
                    (
                        State::AwaitingRecord { req },
                        Step::Run(Command::GetLatestSignupState { id, in_transaction: false }),
                    )
                },
                _ => {
                    proof {
                        assert(false);
                    }
                    (State::Finished, Step::Finish(Err(Error::Repo)))
                },
            },
            State::AwaitingRecord { req } => match reply {
                Reply::LatestSignupState(loaded) => Self::on_record(req, loaded),
                _ => {
                    proof {
                        assert(false);
                    }
                    (State::Finished, Step::Finish(Err(Error::Repo)))
                },
            },
            State::AwaitingTimeoutSave => match reply {
                Reply::SignupStateSaved(Ok(_)) => (
                    State::AwaitingTimeoutCommit,
                    Step::Run(Command::CommitTransaction),
                ),
                Reply::SignupStateSaved(Err(e)) => (
                    State::Finished,
                    Step::Finish(Err(Error::from(e))),
                ),
                _ => {
                    proof {
                        assert(false);
                    }
                    (State::Finished, Step::Finish(Err(Error::Repo)))
                },
            },
            State::AwaitingTimeoutCommit => match reply {
                Reply::TransactionCommitted(Ok(_)) => (
                    State::Finished,
                    Step::Finish(Err(Error::CompletionTimedOut)),
                ),
                Reply::TransactionCommitted(Err(_)) => (
                    State::Finished,
                    Step::Finish(Err(Error::from(SaveError::Connection))),
                ),
                _ => {
                    proof {
                        assert(false);
                    }
                    (State::Finished, Step::Finish(Err(Error::Repo)))
                },
            },
            State::AwaitingUserSave { process, user } => match reply {
                Reply::UserSaved(Ok(_)) => (
                    State::AwaitingProcessSave { user },
                    Step::Run(
                        Command::SaveLatestSignupState {
                            record: Record::from_process(process),
                            in_transaction: false,
                        },
                    ),
                ),
                Reply::UserSaved(Err(e)) => (State::Finished, Step::Finish(Err(Error::from(e)))),
                _ => {
                    proof {
                        assert(false);
                    }
                    (State::Finished, Step::Finish(Err(Error::Repo)))
                },
            },
            State::AwaitingProcessSave { user } => match reply {
                Reply::SignupStateSaved(Ok(_)) => (
                    State::AwaitingCommit { user },
                    Step::Run(Command::CommitTransaction),
                ),
                Reply::SignupStateSaved(Err(e)) => (
                    State::Finished,
                    Step::Finish(Err(Error::from(e))),
                ),
                _ => {
                    proof {
                        assert(false);
                    }
                    (State::Finished, Step::Finish(Err(Error::Repo)))
                },
            },
            State::AwaitingCommit { user } => match reply {
                Reply::TransactionCommitted(Ok(_)) => (
                    State::Finished,
                    Step::Finish(Ok(Response { record: user::Record::from(user) })),
                ),
                Reply::TransactionCommitted(Err(_)) => (
                    State::Finished,
                    Step::Finish(Err(Error::from(SaveError::Connection))),
                ),
                _ => {
                    proof {
                        assert(false);
                    }
                    (State::Finished, Step::Finish(Err(Error::Repo)))
                },
            },
            State::Finished => {
                proof {
                    assert(false);
                }
                (State::Finished, Step::Finish(Err(Error::Repo)))
            },
        }
    }
}

} // verus!
