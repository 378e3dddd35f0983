//! Replaces a user's email, name and password.
use crate::entity::auth_strategy::AuthStrategy;
use crate::entity::user::{Email, Id, Password, UserName};
use crate::gateway::database::user::{GetError, SaveError};
use crate::usecase::command::{Command, Reply, ReplyKind, Step};
use crate::usecase::validation::{
    check, check_field, into_validation_result, lacks_email_shape, satisfies, violation_views,
    Field, RequestInvalidity, Rule,
};
use crate::usecase::Usecase;
use vstd::prelude::*;
use vstd::std_specs::convert::FromSpecImpl;

verus! {

#[derive(Clone, Debug)]
pub struct Request {
    pub id: Id,
    pub email: String,
    pub username: String,
    pub password: String,
}

impl Request {
    /// The violations of the request's rules, in field order.
    pub open spec fn violations(self) -> Seq<(Field, Rule, Seq<char>)> {
        check(Field::Email, Rule::Email, self.email@) + check(
            Field::Username,
            Rule::Length { min: 1, max: 30 },
            self.username@,
        ) + check(Field::Password, Rule::Length { min: 5, max: 60 }, self.password@)
    }

    /// The email must be an email address, the user name have between 1 and
    /// 30 characters, the password between 5 and 60.
    pub fn validate(&self) -> (r: Result<(), RequestInvalidity>)
        ensures
            r is Ok <==> self.violations().len() == 0,
            r matches Err(inv) ==> inv@ == self.violations(),
            lacks_email_shape(self.email@) ==> !satisfies(Rule::Email, self.email@),
    {
        let mut violations = Vec::new();
        check_field(Field::Email, Rule::Email, self.email.as_str(), &mut violations);
        check_field(
            Field::Username,
            Rule::Length { min: 1, max: 30 },
            self.username.as_str(),
            &mut violations,
        );
        check_field(
            Field::Password,
            Rule::Length { min: 5, max: 60 },
            self.password.as_str(),
            &mut violations,
        );
        assert(violation_views(violations@) =~= self.violations());
        into_validation_result(violations)
    }
}

pub type Response = ();

pub struct Update;

#[derive(Clone, Debug, PartialEq, Eq)]
pub enum Error {
    NotFound(Id),
    Invalidity(RequestInvalidity),
    Repo,
}

/// The error for a failed load of the user `id`.
pub open spec fn load_failure(err: GetError, id: Id) -> Error {
    match err {
        GetError::NotFound => Error::NotFound(id),
        GetError::Connection => Error::Repo,
    }
}

impl From<SaveError> for Error {
    fn from(err: SaveError) -> (e: Self) {
        match err {
            SaveError::Connection => Error::Repo,
        }
    }
}

impl FromSpecImpl<SaveError> for Error {
    open spec fn obeys_from_spec() -> bool {
        true
    }

    open spec fn from_spec(err: SaveError) -> Self {
        Error::Repo
    }
}

impl From<(GetError, Id)> for Error {
    fn from(value: (GetError, Id)) -> (e: Self) {
        let (err, id) = value;
        match err {
            GetError::NotFound => Error::NotFound(id),
            GetError::Connection => Error::Repo,
        }
    }
}

impl FromSpecImpl<(GetError, Id)> for Error {
    open spec fn obeys_from_spec() -> bool {
        true
    }

    open spec fn from_spec(value: (GetError, Id)) -> Self {
        load_failure(value.0, value.1)
    }
}

/// Where a run stands.
#[derive(Debug)]
pub enum State {
    /// Loading the user to update with the request's values.
    AwaitingUser { req: Request },
    /// Storing the updated user.
    AwaitingSave,
    Finished,
}

pub open spec fn awaits(state: State) -> Option<ReplyKind> {
    match state {
        State::AwaitingUser { .. } => Some(ReplyKind::UserFetched),
        State::AwaitingSave => Some(ReplyKind::UserSaved),
        State::Finished => None,
    }
}

impl Usecase for Update {
    type Request = Request;
    type Response = Response;
    type Error = Error;
    type State = State;

    /// Admins, and the user the request is about.
    open spec fn strategy(&self) -> AuthStrategy {
        AuthStrategy::AdminAndOwnerOnly
    }

    open spec fn owner_of(&self, req: Request) -> Option<Id> {
        Some(req.id)
    }

    open spec fn awaits(&self, state: State) -> Option<ReplyKind> {
        awaits(state)
    }

    fn new() -> Self {
        Update
    }

    fn auth_strategy(&self) -> (strategy: AuthStrategy) {
        AuthStrategy::AdminAndOwnerOnly
    }

    fn extract_owner(&self, req: &Request) -> (owner: Option<Id>) {
        Some(req.id)
    }

    fn awaited(&self, state: &State) -> (kind: Option<ReplyKind>) {
        match state {
            State::AwaitingUser { .. } => Some(ReplyKind::UserFetched),
            State::AwaitingSave => Some(ReplyKind::UserSaved),
            State::Finished => None,
        }
    }

    /// Checks the request, then loads the user.
    fn start(&self, req: Request) -> (r: (State, Step<Response, Error>))
        ensures
            if req.violations().len() == 0 {
                &&& r.0 == (State::AwaitingUser { req })
                &&& r.1 == Step::<Response, Error>::Run(Command::GetUser { id: req.id })
            } else {
                &&& r.0 is Finished
                &&& r.1 matches Step::Finish(Err(Error::Invalidity(inv)))
                &&& inv@ == req.violations()
            },
            lacks_email_shape(req.email@) ==> !satisfies(Rule::Email, req.email@),
    {
        match req.validate() {
            Err(inv) => (State::Finished, Step::Finish(Err(Error::Invalidity(inv)))),
            Ok(_) => {
                let id = req.id;
                (State::AwaitingUser { req }, Step::Run(Command::GetUser { id }))
            },
        }
    }

    /// The loaded user gets the request's email, name and password, keeping
    /// its id and role, and is stored; a failed load ends the run with its
    /// error, a failed store with `Repo`.
    fn resume(&self, state: State, reply: Reply) -> (r: (State, Step<Response, Error>))
        ensures
            match (state, reply) {
                (State::AwaitingUser { req }, Reply::UserFetched(loaded)) => match loaded {
                    Err(e) => r.0 is Finished && r.1 == Step::<Response, Error>::Finish(
                        Err(load_failure(e, req.id)),
                    ),
                    Ok(record) => {
                        &&& r.0 is AwaitingSave
                        &&& r.1 matches Step::Run(Command::SaveUser { record: saved })
                        &&& saved.user.spec_id() == record.user.spec_id()
                        &&& saved.user.spec_role() == record.user.spec_role()
                        &&& saved.user.spec_email()@ == req.email@
                        &&& saved.user.spec_username()@ == req.username@
                        &&& saved.user.spec_password()@ == req.password@
                    },
                },
                (State::AwaitingSave, Reply::UserSaved(saved)) => {
                    &&& r.0 is Finished
                    &&& r.1 == Step::<Response, Error>::Finish(
                        match saved {
                            Ok(_) => Ok(()),
                            Err(_) => Err(Error::Repo),
                        },
                    )
                },
                _ => false,
            },
    {
        match state {
            State::AwaitingUser { req } => match reply {
                Reply::UserFetched(Err(e)) => (
                    State::Finished,
                    Step::Finish(Err(Error::from((e, req.id)))),
                ),
                Reply::UserFetched(Ok(record)) => {
                    let mut record = record;
                    record.user.update(
                        Email::new(req.email.as_str()),
                        UserName::new(req.username.as_str()),
                        Password::new(req.password.as_str()),
                    );
                    (State::AwaitingSave, Step::Run(Command::SaveUser { record }))
                },
                _ => {
                    proof {
                        assert(false);
                    }
                    (State::Finished, Step::Finish(Err(Error::Repo)))
                },
            },
            State::AwaitingSave => match reply {
                Reply::UserSaved(Ok(_)) => (State::Finished, Step::Finish(Ok(()))),
                Reply::UserSaved(Err(e)) => (State::Finished, Step::Finish(Err(Error::from(e)))),
                _ => {
                    proof {
                        assert(false);
                    }
                    (State::Finished, Step::Finish(Err(Error::Repo)))
                },
            },
            State::Finished => {
                proof {
                    assert(false);
                }
                (State::Finished, Step::Finish(Err(Error::Repo)))
            },
        }
    }
}

} // verus!
