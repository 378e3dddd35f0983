use crate::entity::user::{Email, Password, UserName};
use crate::value_object;
use crate::value_object::Timestamp;
use std::sync::Arc;
use vstd::prelude::*;

verus! {

/// Marks the identifiers of signup processes.
#[derive(Clone, Copy, Debug, PartialEq, Eq)]
pub struct SignupProcessValue;

pub type Id = value_object::Id<SignupProcessValue>;

/// Why a signup process failed.
#[derive(Clone, Copy, Debug, PartialEq, Eq, Structural)]
pub enum Error {
    TokenGenrationFailed,
    VerificationEmailSendError,
    VerificationTimedOut,
    CompletionTimedOut,
}

/// The state of a signup process as one tagged value, as it is stored.
#[derive(Clone, Debug)]
pub enum SignupStateEnum {
    Initialized { email: Email },
    VerificationEmailSent { email: Email },
    EmailVerified { email: Email },
    Completed { email: Email, username: UserName, password: Password },
    ForDeletion,
    Failed { previous_state: Arc<SignupStateEnum>, error: Error },
}

impl SignupStateEnum {
    /// A copy of this state.
    pub fn duplicate(&self) -> (state: Self)
        ensures
            state == *self,
        decreases self,
    {
        match self {
            SignupStateEnum::Initialized { email } => SignupStateEnum::Initialized {
                email: email.duplicate(),
            },
            SignupStateEnum::VerificationEmailSent { email } => {
                SignupStateEnum::VerificationEmailSent { email: email.duplicate() }
            },
            SignupStateEnum::EmailVerified { email } => SignupStateEnum::EmailVerified {
                email: email.duplicate(),
            },
            SignupStateEnum::Completed { email, username, password } => {
                SignupStateEnum::Completed {
                    email: email.duplicate(),
                    username: username.duplicate(),
                    password: password.duplicate(),
                }
            },
            SignupStateEnum::ForDeletion => SignupStateEnum::ForDeletion,
            SignupStateEnum::Failed { previous_state, error } => {
                let previous: &SignupStateEnum = &**previous_state;
                SignupStateEnum::Failed {
                    previous_state: Arc::new(previous.duplicate()),
                    error: *error,
                }
            },
        }
    }
}

/// A state type of the signup process: each such type stands for the tagged
/// states of one kind, and converts to and from them.
pub trait SignupStateTrait: Sized {
    /// The tagged state that this value stands for.
    spec fn as_state(&self) -> SignupStateEnum;

    /// Whether a tagged state is of this type's kind.
    spec fn admits(state: SignupStateEnum) -> bool;

    /// Reads a tagged state as this type; fails on a state of another kind.
    fn try_from_state(value: SignupStateEnum) -> (r: Result<Self, ()>)
        ensures
            r is Ok <==> Self::admits(value),
            r matches Ok(s) ==> s.as_state() == value,
    ;

    /// The tagged state that this value stands for.
    fn into_state(self) -> (state: SignupStateEnum)
        ensures
            state == self.as_state(),
    ;

    /// A copy of this state.
    fn duplicate(&self) -> (s: Self)
        ensures
            s == *self,
    ;

    /// A value's own tagged state is of its kind.
    proof fn lemma_admits_own_state(s: Self)
        ensures
            Self::admits(s.as_state()),
    ;

    /// Two values that stand for the same tagged state are equal.
    proof fn lemma_as_state_injective(a: Self, b: Self)
        ensures
            a.as_state() == b.as_state() ==> a == b,
    ;
}

#[derive(Clone, Debug)]
pub struct Initialized {
    pub email: Email,
}

#[derive(Clone, Debug)]
pub struct VerificationEmailSent {
    pub email: Email,
}

#[derive(Clone, Debug)]
pub struct EmailVerified {
    pub email: Email,
}

#[derive(Clone, Debug)]
pub struct Completed {
    pub email: Email,
    pub username: UserName,
    pub password: Password,
}

#[derive(Clone, Debug)]
pub struct ForDeletion {}

#[derive(Clone, Debug)]
pub struct Failed<S: SignupStateTrait> {
    pub previous_state: S,
    pub error: Error,
}

impl SignupStateTrait for Initialized {
    open spec fn as_state(&self) -> SignupStateEnum {
        SignupStateEnum::Initialized { email: self.email }
    }

    open spec fn admits(state: SignupStateEnum) -> bool {
        state is Initialized
    }

    fn try_from_state(value: SignupStateEnum) -> (r: Result<Self, ()>) {
        match value {
            SignupStateEnum::Initialized { email } => Ok(Initialized { email }),
            _ => Err(()),
        }
    }

    fn into_state(self) -> (state: SignupStateEnum) {
        SignupStateEnum::Initialized { email: self.email }
    }

    fn duplicate(&self) -> (s: Self) {
        Initialized { email: self.email.duplicate() }
    }

    proof fn lemma_admits_own_state(s: Self) {
    }

    proof fn lemma_as_state_injective(a: Self, b: Self) {
    }
}

impl SignupStateTrait for VerificationEmailSent {
    open spec fn as_state(&self) -> SignupStateEnum {
        SignupStateEnum::VerificationEmailSent { email: self.email }
    }

    open spec fn admits(state: SignupStateEnum) -> bool {
        state is VerificationEmailSent
    }

    fn try_from_state(value: SignupStateEnum) -> (r: Result<Self, ()>) {
        match value {
            SignupStateEnum::VerificationEmailSent { email } => Ok(VerificationEmailSent { email }),
            _ => Err(()),
        }
    }

    fn into_state(self) -> (state: SignupStateEnum) {
        SignupStateEnum::VerificationEmailSent { email: self.email }
    }

    fn duplicate(&self) -> (s: Self) {
        VerificationEmailSent { email: self.email.duplicate() }
    }

    proof fn lemma_admits_own_state(s: Self) {
    }

    proof fn lemma_as_state_injective(a: Self, b: Self) {
    }
}

impl SignupStateTrait for EmailVerified {
    open spec fn as_state(&self) -> SignupStateEnum {
        SignupStateEnum::EmailVerified { email: self.email }
    }

    open spec fn admits(state: SignupStateEnum) -> bool {
        state is EmailVerified
    }

    fn try_from_state(value: SignupStateEnum) -> (r: Result<Self, ()>) {
        match value {
            SignupStateEnum::EmailVerified { email } => Ok(EmailVerified { email }),
            _ => Err(()),
        }
    }

    fn into_state(self) -> (state: SignupStateEnum) {
        SignupStateEnum::EmailVerified { email: self.email }
    }

    fn duplicate(&self) -> (s: Self) {
        EmailVerified { email: self.email.duplicate() }
    }

    proof fn lemma_admits_own_state(s: Self) {
    }

    proof fn lemma_as_state_injective(a: Self, b: Self) {
    }
}

impl SignupStateTrait for Completed {
    open spec fn as_state(&self) -> SignupStateEnum {
        SignupStateEnum::Completed {
            email: self.email,
            username: self.username,
            password: self.password,
        }
    }

    open spec fn admits(state: SignupStateEnum) -> bool {
        state is Completed
    }

    fn try_from_state(value: SignupStateEnum) -> (r: Result<Self, ()>) {
        match value {
            SignupStateEnum::Completed { username, email, password } => Ok(
                Completed { email, username, password },
            ),
            _ => Err(()),
        }
    }

    fn into_state(self) -> (state: SignupStateEnum) {
        SignupStateEnum::Completed {
            email: self.email,
            username: self.username,
            password: self.password,
        }
    }

    fn duplicate(&self) -> (s: Self) {
        Completed {
            email: self.email.duplicate(),
            username: self.username.duplicate(),
            password: self.password.duplicate(),
        }
    }

    proof fn lemma_admits_own_state(s: Self) {
    }

    proof fn lemma_as_state_injective(a: Self, b: Self) {
    }
}

impl SignupStateTrait for ForDeletion {
    open spec fn as_state(&self) -> SignupStateEnum {
        SignupStateEnum::ForDeletion
    }

    open spec fn admits(state: SignupStateEnum) -> bool {
        state is ForDeletion
    }

    fn try_from_state(value: SignupStateEnum) -> (r: Result<Self, ()>) {
        match value {
            SignupStateEnum::ForDeletion => Ok(ForDeletion {  }),
            _ => Err(()),
        }
    }

    fn into_state(self) -> (state: SignupStateEnum) {
        SignupStateEnum::ForDeletion
    }

    fn duplicate(&self) -> (s: Self) {
        ForDeletion {  }
    }

    proof fn lemma_admits_own_state(s: Self) {
    }

    proof fn lemma_as_state_injective(a: Self, b: Self) {
    }
}

impl<S: SignupStateTrait> SignupStateTrait for Failed<S> {
    open spec fn as_state(&self) -> SignupStateEnum {
        SignupStateEnum::Failed {
            previous_state: Arc::new(self.previous_state.as_state()),
            error: self.error,
        }
    }

    open spec fn admits(state: SignupStateEnum) -> bool {
        &&& state matches SignupStateEnum::Failed { previous_state, error }
        &&& S::admits(*previous_state)
    }

    fn try_from_state(value: SignupStateEnum) -> (r: Result<Self, ()>) {
        match value {
            SignupStateEnum::Failed { previous_state, error } => {
                let previous: &SignupStateEnum = &*previous_state;
                match S::try_from_state(previous.duplicate()) {
                    Ok(previous_state) => Ok(Failed { previous_state, error }),
                    Err(_) => Err(()),
                }
            },
            _ => Err(()),
        }
    }

    fn into_state(self) -> (state: SignupStateEnum) {
        let previous_state: SignupStateEnum = self.previous_state.into_state();
        SignupStateEnum::Failed { previous_state: Arc::new(previous_state), error: self.error }
    }

    fn duplicate(&self) -> (s: Self) {
        Failed { previous_state: self.previous_state.duplicate(), error: self.error }
    }

    proof fn lemma_admits_own_state(s: Self) {
        S::lemma_admits_own_state(s.previous_state);
    }

    proof fn lemma_as_state_injective(a: Self, b: Self) {
        S::lemma_as_state_injective(a.previous_state, b.previous_state);
    }
}

/// Whether a process may move from the tagged state `from` to `to`: forward
/// along `Initialized`, `VerificationEmailSent`, `EmailVerified`, `Completed`
/// keeping its email; into `Failed`, remembering the state it failed in; and
/// out of `Failed`, back to that state or to `ForDeletion`.
pub open spec fn is_signup_step(from: SignupStateEnum, to: SignupStateEnum) -> bool {
    ||| to matches SignupStateEnum::Failed { previous_state, .. } && *previous_state == from
    ||| from matches SignupStateEnum::Failed { previous_state, .. } && (to == *previous_state
        || to is ForDeletion)
    ||| from matches SignupStateEnum::Initialized { email } && to
        == (SignupStateEnum::VerificationEmailSent { email })
    ||| from matches SignupStateEnum::VerificationEmailSent { email } && to
        == (SignupStateEnum::EmailVerified { email })
    ||| from matches SignupStateEnum::EmailVerified { email } && to matches SignupStateEnum::Completed {
        email: e,
        ..
    } && e == email
}

/// Reads the wall clock through `chrono::Utc::now` and returns the instant as
/// its `timestamp` and `timestamp_subsec_nanos`. Nothing is claimed of the
/// value: it is whatever the machine's clock reads.
#[verifier::external_body]
pub(crate) fn clock_now() -> (t: Timestamp) {
    let now = chrono::Utc::now();
    Timestamp { secs: now.timestamp(), nanos: now.timestamp_subsec_nanos() }
}

/// A signup process in the state `S`, with the instant it entered that state.
#[derive(Clone, Debug)]
pub struct SignupProcess<S: SignupStateTrait> {
    id: Id,
    state: S,
    entered_at: Timestamp,
}

impl<S: SignupStateTrait> SignupProcess<S> {
    pub closed spec fn spec_id(&self) -> Id {
        self.id
    }

    pub closed spec fn spec_state(&self) -> S {
        self.state
    }

    pub closed spec fn spec_entered_at(&self) -> Timestamp {
        self.entered_at
    }

    pub fn entered_at(&self) -> (t: Timestamp)
        ensures
            t == self.spec_entered_at(),
    {
        self.entered_at
    }

    pub fn state(&self) -> (state: &S)
        ensures
            *state == self.spec_state(),
    {
        &self.state
    }

    pub fn id(&self) -> (id: Id)
        ensures
            id == self.spec_id(),
    {
        self.id
    }

    /// The process moves to `Failed`, remembering its state and the error; it
    /// enters the new state now.
    pub fn fail(&self, error: Error) -> (failed: SignupProcess<Failed<S>>)
        ensures
            failed.spec_id() == self.spec_id(),
            failed.spec_state() == (Failed { previous_state: self.spec_state(), error }),
            is_signup_step(self.spec_state().as_state(), failed.spec_state().as_state()),
    {
        self.fail_at(error, clock_now())
    }

    /// The process moves to `Failed`, remembering its state and the error; it
    /// enters the new state at `at`.
    pub fn fail_at(&self, error: Error, at: Timestamp) -> (failed: SignupProcess<Failed<S>>)
        ensures
            failed.spec_id() == self.spec_id(),
            failed.spec_state() == (Failed { previous_state: self.spec_state(), error }),
            failed.spec_entered_at() == at,
            is_signup_step(self.spec_state().as_state(), failed.spec_state().as_state()),
    {
        let state = Failed { previous_state: self.state.duplicate(), error };
        SignupProcess { id: self.id, state, entered_at: at }
    }

    /// Reads a stored process: succeeds exactly when the tagged state is of
    /// the kind `S`.
    pub fn from_parts(id: Id, state: SignupStateEnum, entered_at: Timestamp) -> (r: Result<Self, ()>)
        ensures
            r is Ok <==> S::admits(state),
            r matches Ok(p) ==> {
                &&& p.spec_id() == id
                &&& p.spec_state().as_state() == state
                &&& p.spec_entered_at() == entered_at
            },
    {
        match S::try_from_state(state) {
            Ok(state) => Ok(SignupProcess { id, state, entered_at }),
            Err(_) => Err(()),
        }
    }

    /// A copy of this process.
    pub fn duplicate(&self) -> (p: Self)
        ensures
            p == *self,
    {
        SignupProcess { id: self.id, state: self.state.duplicate(), entered_at: self.entered_at }
    }
}

impl SignupProcess<Initialized> {
    /// A new process for `email`, initialized now.
    pub fn new(id: Id, email: Email) -> (p: Self)
        ensures
            p.spec_id() == id,
            p.spec_state() == (Initialized { email }),
    {
        Self::new_at(id, email, clock_now())
    }

    /// A new process for `email`, initialized at `at`.
    pub fn new_at(id: Id, email: Email, at: Timestamp) -> (p: Self)
        ensures
            p.spec_id() == id,
            p.spec_state() == (Initialized { email }),
            p.spec_entered_at() == at,
    {
        let state = Initialized { email };
        SignupProcess { id, state, entered_at: at }
    }

    /// The verification email was sent; the process enters the new state now.
    pub fn send_verification_email(self) -> (p: SignupProcess<VerificationEmailSent>)
        ensures
            p.spec_id() == self.spec_id(),
            p.spec_state() == (VerificationEmailSent { email: self.spec_state().email }),
            is_signup_step(self.spec_state().as_state(), p.spec_state().as_state()),
    {
        self.send_verification_email_at(clock_now())
    }

    /// The verification email was sent; the process enters the new state at `at`.
    pub fn send_verification_email_at(self, at: Timestamp) -> (p: SignupProcess<
        VerificationEmailSent,
    >)
        ensures
            p.spec_id() == self.spec_id(),
            p.spec_state() == (VerificationEmailSent { email: self.spec_state().email }),
            p.spec_entered_at() == at,
            is_signup_step(self.spec_state().as_state(), p.spec_state().as_state()),
    {
        let state = VerificationEmailSent { email: self.state.email };
        SignupProcess { id: self.id, state, entered_at: at }
    }
}

impl SignupProcess<VerificationEmailSent> {
    /// The email was verified; the process enters the new state now.
    pub fn verify_email(self) -> (p: SignupProcess<EmailVerified>)
        ensures
            p.spec_id() == self.spec_id(),
            p.spec_state() == (EmailVerified { email: self.spec_state().email }),
            is_signup_step(self.spec_state().as_state(), p.spec_state().as_state()),
    {
        self.verify_email_at(clock_now())
    }

    /// The email was verified; the process enters the new state at `at`.
    pub fn verify_email_at(self, at: Timestamp) -> (p: SignupProcess<EmailVerified>)
        ensures
            p.spec_id() == self.spec_id(),
            p.spec_state() == (EmailVerified { email: self.spec_state().email }),
            p.spec_entered_at() == at,
            is_signup_step(self.spec_state().as_state(), p.spec_state().as_state()),
    {
        let state = EmailVerified { email: self.state.email };
        SignupProcess { id: self.id, state, entered_at: at }
    }
}

impl SignupProcess<EmailVerified> {
    /// The signup is completed with a user name and a password; the process
    /// enters the new state now.
    pub fn complete(self, username: UserName, password: Password) -> (p: SignupProcess<Completed>)
        ensures
            p.spec_id() == self.spec_id(),
            p.spec_state() == (Completed { email: self.spec_state().email, username, password }),
            is_signup_step(self.spec_state().as_state(), p.spec_state().as_state()),
    {
        self.complete_at(username, password, clock_now())
    }

    /// The signup is completed with a user name and a password; the process
    /// enters the new state at `at`.
    pub fn complete_at(self, username: UserName, password: Password, at: Timestamp) -> (p:
        SignupProcess<Completed>)
        ensures
            p.spec_id() == self.spec_id(),
            p.spec_state() == (Completed { email: self.spec_state().email, username, password }),
            p.spec_entered_at() == at,
            is_signup_step(self.spec_state().as_state(), p.spec_state().as_state()),
    {
        let state = Completed { email: self.state.email, username, password };
        SignupProcess { id: self.id, state, entered_at: at }
    }
}

impl SignupProcess<Completed> {
    pub fn username(&self) -> (username: UserName)
        ensures
            username == self.spec_state().username,
    {
        self.state.username.duplicate()
    }

    pub fn email(&self) -> (email: Email)
        ensures
            email == self.spec_state().email,
    {
        self.state.email.duplicate()
    }

    pub fn password(&self) -> (password: Password)
        ensures
            password == self.spec_state().password,
    {
        self.state.password.duplicate()
    }
}

impl<S: SignupStateTrait> SignupProcess<Failed<S>> {
    /// The process goes back to the state it failed in; it enters it now.
    pub fn recover(&self) -> (p: SignupProcess<S>)
        ensures
            p.spec_id() == self.spec_id(),
            p.spec_state() == self.spec_state().previous_state,
            is_signup_step(self.spec_state().as_state(), p.spec_state().as_state()),
    {
        self.recover_at(clock_now())
    }

    /// The process goes back to the state it failed in; it enters it at `at`.
    pub fn recover_at(&self, at: Timestamp) -> (p: SignupProcess<S>)
        ensures
            p.spec_id() == self.spec_id(),
            p.spec_state() == self.spec_state().previous_state,
            p.spec_entered_at() == at,
            is_signup_step(self.spec_state().as_state(), p.spec_state().as_state()),
    {
        let state = self.state.previous_state.duplicate();
        SignupProcess { id: self.id, state, entered_at: at }
    }

    /// The failed process is marked for deletion; it enters that state now.
    pub fn delete(self) -> (p: SignupProcess<ForDeletion>)
        ensures
            p.spec_id() == self.spec_id(),
            p.spec_state() == (ForDeletion {  }),
            is_signup_step(self.spec_state().as_state(), p.spec_state().as_state()),
    {
        self.delete_at(clock_now())
    }

    /// The failed process is marked for deletion; it enters that state at `at`.
    pub fn delete_at(self, at: Timestamp) -> (p: SignupProcess<ForDeletion>)
        ensures
            p.spec_id() == self.spec_id(),
            p.spec_state() == (ForDeletion {  }),
            p.spec_entered_at() == at,
            is_signup_step(self.spec_state().as_state(), p.spec_state().as_state()),
    {
        let state = ForDeletion {  };
        SignupProcess { id: self.id, state, entered_at: at }
    }
}

/// Converting a state to its tagged form and reading it back as the same
/// kind gives the state back: the tagged form is of the state's kind, and no
/// other value of the kind has the same tagged form.
pub proof fn lemma_state_round_trip<S: SignupStateTrait>(s: S)
    ensures
        S::admits(s.as_state()),
        forall|t: S| #[trigger] t.as_state() == s.as_state() ==> t == s,
{
    S::lemma_admits_own_state(s);
    assert forall|t: S| #[trigger] t.as_state() == s.as_state() implies t == s by {
        S::lemma_as_state_injective(t, s);
    }
}

/// Failing a process and then recovering it gives back a process with the
/// same id in the state it failed in, whatever the error was.
pub proof fn lemma_recover_undoes_fail<S: SignupStateTrait>(
    process: SignupProcess<S>,
    error: Error,
    failed: SignupProcess<Failed<S>>,
    recovered: SignupProcess<S>,
)
    requires
        failed.spec_id() == process.spec_id(),
        failed.spec_state() == (Failed { previous_state: process.spec_state(), error }),
        recovered.spec_id() == failed.spec_id(),
        recovered.spec_state() == failed.spec_state().previous_state,
    ensures
        recovered.spec_id() == process.spec_id(),
        recovered.spec_state() == process.spec_state(),
{
}

/// A process is determined by its id, state and entry time.
pub proof fn lemma_process_determined_by_parts<S: SignupStateTrait>(
    p: SignupProcess<S>,
    q: SignupProcess<S>,
)
    ensures
        p.spec_id() == q.spec_id() && p.spec_state() == q.spec_state() && p.spec_entered_at()
            == q.spec_entered_at() ==> p == q,
{
}

} // verus!
