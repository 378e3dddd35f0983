use crate::entity::user::User;
use vstd::prelude::*;
use vstd::std_specs::cmp::PartialEqSpecImpl;
use vstd::std_specs::convert::FromSpecImpl;

verus! {

#[derive(Clone, Copy, Debug, PartialEq, Eq, Structural)]
pub enum GetError {
    NotFound,
    Connection,
}

#[derive(Clone, Copy, Debug, PartialEq, Eq, Structural)]
pub enum SaveError {
    Connection,
}

#[derive(Clone, Copy, Debug, PartialEq, Eq, Structural)]
pub enum GetAllError {
    Connection,
}

#[derive(Clone, Copy, Debug, PartialEq, Eq, Structural)]
pub enum DeleteError {
    NotFound,
    Connection,
}

/// A stored user.
#[derive(Clone, Debug)]
pub struct Record {
    pub user: User,
}

impl PartialEq for Record {
    fn eq(&self, other: &Self) -> (same: bool) {
        self.user.id().same_as(&other.user.id())
    }
}

impl PartialEqSpecImpl for Record {
    open spec fn obeys_eq_spec() -> bool {
        true
    }

    /// Two records are equal when they store the same user id.
    open spec fn eq_spec(&self, other: &Self) -> bool {
        self.user.spec_id()@ == other.user.spec_id()@
    }
}

impl From<User> for Record {
    fn from(user: User) -> (record: Self) {
        Record { user }
    }
}

impl FromSpecImpl<User> for Record {
    open spec fn obeys_from_spec() -> bool {
        true
    }

    open spec fn from_spec(user: User) -> Self {
        Record { user }
    }
}

impl From<Record> for User {
    fn from(record: Record) -> (user: Self) {
        record.user
    }
}

impl FromSpecImpl<Record> for User {
    open spec fn obeys_from_spec() -> bool {
        true
    }

    open spec fn from_spec(record: Record) -> Self {
        record.user
    }
}

impl Record {
    /// A copy of this record.
    pub fn duplicate(&self) -> (record: Self)
        ensures
            record == *self,
    {
        Record { user: self.user.duplicate() }
    }
}

} // verus!
