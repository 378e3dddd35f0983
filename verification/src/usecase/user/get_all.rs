//! Lists all users.
use crate::entity::auth_strategy::AuthStrategy;
use crate::entity::user::{Id, User};
use crate::gateway::database::user::{GetAllError, Record};
use crate::usecase::command::{Command, Reply, ReplyKind, Step};
use crate::usecase::Usecase;
use vstd::prelude::*;
use vstd::std_specs::convert::FromSpecImpl;

verus! {

#[derive(Clone, Copy, Debug)]
pub struct Request;

#[derive(Clone, Debug)]
pub struct Response {
    pub users: Vec<User>,
}

/// Get all users usecase interactor
pub struct GetAll;

#[derive(Clone, Copy, Debug, PartialEq, Eq, Structural)]
pub enum Error {
    Repo,
}

impl From<GetAllError> for Error {
    fn from(err: GetAllError) -> (e: Self) {
        match err {
            GetAllError::Connection => Error::Repo,
        }
    }
}

impl FromSpecImpl<GetAllError> for Error {
    open spec fn obeys_from_spec() -> bool {
        true
    }

    open spec fn from_spec(err: GetAllError) -> Self {
        Error::Repo
    }
}

/// The users that the records store, in their order.
pub open spec fn users_of(records: Seq<Record>) -> Seq<User> {
    records.map_values(|record: Record| record.user)
}

/// The users stored in `records`, in their order.
pub fn into_users(records: Vec<Record>) -> (users: Vec<User>)
    ensures
        users@ == users_of(records@),
{
    let mut users: Vec<User> = Vec::new();
    let n = records.len();
    let mut i: usize = 0;
    while i < n
        invariant
            n == records@.len(),
            i <= n,
            users@ == users_of(records@.take(i as int)),
        decreases n - i,
    {
        users.push(User::from(records[i].duplicate()));
        assert(records@.take(i + 1) =~= records@.take(i as int).push(records@[i as int]));
        assert(users_of(records@.take(i + 1)) =~= users_of(records@.take(i as int)).push(
            records@[i as int].user,
        ));
        i = i + 1;
    }
    assert(records@.take(n as int) =~= records@);
    users
}

/// Where a run stands.
#[derive(Debug)]
pub enum State {
    AwaitingUsers,
    Finished,
}

pub open spec fn awaits(state: State) -> Option<ReplyKind> {
    match state {
        State::AwaitingUsers => Some(ReplyKind::AllUsersFetched),
        State::Finished => None,
    }
}

impl Usecase for GetAll {
    type Request = Request;
    type Response = Response;
    type Error = Error;
    type State = State;

    open spec fn strategy(&self) -> AuthStrategy {
        AuthStrategy::AdminOnly
    }

    open spec fn owner_of(&self, req: Request) -> Option<Id> {
        None
    }

    open spec fn awaits(&self, state: State) -> Option<ReplyKind> {
        awaits(state)
    }

    fn new() -> Self {
        GetAll
    }

    fn auth_strategy(&self) -> (strategy: AuthStrategy) {
        AuthStrategy::AdminOnly
    }

    fn extract_owner(&self, req: &Request) -> (owner: Option<Id>) {
        None
    }

    fn awaited(&self, state: &State) -> (kind: Option<ReplyKind>) {
        match state {
            State::AwaitingUsers => Some(ReplyKind::AllUsersFetched),
            State::Finished => None,
        }
    }

    /// Loads all user records.
    fn start(&self, req: Request) -> (r: (State, Step<Response, Error>))
        ensures
            r.0 is AwaitingUsers,
            r.1 == Step::<Response, Error>::Run(Command::GetAllUsers),
    {
        (State::AwaitingUsers, Step::Run(Command::GetAllUsers))
    }

    /// Returns the users of the loaded records, in their order.
    fn resume(&self, state: State, reply: Reply) -> (r: (State, Step<Response, Error>))
        ensures
            match (state, reply) {
                (State::AwaitingUsers, Reply::AllUsersFetched(loaded)) => {
                    &&& r.0 is Finished
                    &&& match loaded {
                        Ok(records) => r.1 matches Step::Finish(Ok(response)) && response.users@
                            == users_of(records@),
                        Err(_) => r.1 == Step::<Response, Error>::Finish(Err(Error::Repo)),
                    }
                },
                _ => false,
            },
    {
        match state {
            State::AwaitingUsers => match reply {
                Reply::AllUsersFetched(Ok(records)) => (
                    State::Finished,
                    Step::Finish(Ok(Response { users: into_users(records) })),
                ),
                Reply::AllUsersFetched(Err(e)) => (State::Finished, Step::Finish(Err(Error::from(e)))),
                _ => {
                    proof {
                        assert(false);
                    }
                    (State::Finished, Step::Finish(Err(Error::Repo)))
                },
            },
            State::Finished => {
                proof {
                    assert(false);
                }
                (State::Finished, Step::Finish(Err(Error::Repo)))
            },
        }
    }
}

} // verus!
