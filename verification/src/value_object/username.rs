use std::marker::PhantomData;
use vstd::prelude::*;
use vstd::std_specs::cmp::PartialEqSpecImpl;

verus! {

/// A user name of the entity marked by `T`, kept as the text it was made from.
#[derive(Clone, Debug)]
pub struct UserName<T>(String, PhantomData<T>);

impl<T> View for UserName<T> {
    type V = Seq<char>;

    closed spec fn view(&self) -> Seq<char> {
        self.0@
    }
}

impl<T> UserName<T> {
    pub fn new(name: &str) -> (user_name: Self)
        ensures
            user_name@ == name@,
    {
        UserName(name.to_owned(), PhantomData)
    }

    pub fn as_str(&self) -> (s: &str)
        ensures
            s@ == self@,
    {
        self.0.as_str()
    }

    pub fn into_string(self) -> (s: String)
        ensures
            s@ == self@,
    {
        self.0
    }

    /// The text of the name, unchanged, for display.
    pub fn to_string(&self) -> (s: String)
        ensures
            s@ == self@,
    {
        self.0.clone()
    }

    /// A copy of this name.
    pub fn duplicate(&self) -> (e: Self)
        ensures
            e == *self,
    {
        UserName(self.0.clone(), PhantomData)
    }
}

impl<T> PartialEq for UserName<T> {
    fn eq(&self, other: &Self) -> (same: bool) {
        self.0 == other.0
    }
}

impl<T> PartialEqSpecImpl for UserName<T> {
    open spec fn obeys_eq_spec() -> bool {
        true
    }

    /// Equal when the texts are equal.
    open spec fn eq_spec(&self, other: &Self) -> bool {
        self@ == other@
    }
}

impl<T> Eq for UserName<T> {
}

} // verus!
