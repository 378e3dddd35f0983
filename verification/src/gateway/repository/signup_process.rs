use crate::entity::signup_process::{
    lemma_process_determined_by_parts, Id, SignupProcess, SignupStateEnum, SignupStateTrait,
};
use crate::value_object::Timestamp;
use vstd::prelude::*;
use vstd::std_specs::cmp::PartialEqSpecImpl;

verus! {

#[derive(Clone, Copy, Debug, PartialEq, Eq, Structural)]
pub enum GetError {
    NotFound,
    Connection,
}

#[derive(Clone, Copy, Debug, PartialEq, Eq, Structural)]
pub enum SaveError {
    Connection,
}

#[derive(Clone, Copy, Debug, PartialEq, Eq, Structural)]
pub enum DeleteError {
    NotFound,
    Connection,
}

/// One stored state of a signup process.
#[derive(Clone, Debug)]
pub struct Record {
    pub id: Id,
    pub state: SignupStateEnum,
    pub entered_at: Timestamp,
}

impl PartialEq for Record {
    fn eq(&self, other: &Self) -> (same: bool) {
        self.id.same_as(&other.id)
    }
}

impl PartialEqSpecImpl for Record {
    open spec fn obeys_eq_spec() -> bool {
        true
    }

    /// Two records are equal when they belong to the same process.
    open spec fn eq_spec(&self, other: &Self) -> bool {
        self.id@ == other.id@
    }
}

impl Record {
    /// The record that stores a process: its id, tagged state and entry time.
    /// Whether this record stores exactly the process `p`.
    pub open spec fn describes<S: SignupStateTrait>(self, p: SignupProcess<S>) -> bool {
        &&& p.spec_id() == self.id
        &&& p.spec_state().as_state() == self.state
        &&& p.spec_entered_at() == self.entered_at
    }

    pub fn from_process<S: SignupStateTrait>(process: SignupProcess<S>) -> (record: Self)
        ensures
            record.describes(process),
    {
        Record {
            id: process.id(),
            state: process.state().duplicate().into_state(),
            entered_at: process.entered_at(),
        }
    }

    /// Reads the record as a process in the state `S`; a record in a state of
    /// another kind gives `NotFound`.
    pub fn into_process<S: SignupStateTrait>(self) -> (r: Result<SignupProcess<S>, GetError>)
        ensures
            r is Ok <==> S::admits(self.state),
            r matches Err(e) ==> e == GetError::NotFound,
            r matches Ok(p) ==> self.describes(p),
    {
        match SignupProcess::from_parts(self.id, self.state, self.entered_at) {
            Ok(p) => Ok(p),
            Err(_) => Err(GetError::NotFound),
        }
    }

    /// A copy of this record.
    pub fn duplicate(&self) -> (record: Self)
        ensures
            record == *self,
    {
        Record { id: self.id, state: self.state.duplicate(), entered_at: self.entered_at }
    }
}

/// Storing a process and reading the record back as the same kind of state
/// gives back the process: the record's state is of the process's kind, and
/// the record describes no other process.
pub proof fn lemma_record_round_trip<S: SignupStateTrait>(process: SignupProcess<S>, record: Record)
    requires
        record.describes(process),
    ensures
        S::admits(record.state),
        forall|other: SignupProcess<S>| #[trigger] record.describes(other) ==> other == process,
{
    S::lemma_admits_own_state(process.spec_state());
    assert forall|other: SignupProcess<S>| #[trigger] record.describes(other) implies other
        == process by {
        S::lemma_as_state_injective(other.spec_state(), process.spec_state());
        lemma_process_determined_by_parts(other, process);
    }
}

} // verus!
