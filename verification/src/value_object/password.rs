use std::marker::PhantomData;
use vstd::prelude::*;
use vstd::std_specs::cmp::PartialEqSpecImpl;

verus! {

/// A password of the entity marked by `T`, kept as the text it was made from.
#[derive(Clone, Debug)]
pub struct Password<T>(String, PhantomData<T>);

impl<T> View for Password<T> {
    type V = Seq<char>;

    closed spec fn view(&self) -> Seq<char> {
        self.0@
    }
}

impl<T> Password<T> {
    pub fn new(text: &str) -> (password: Self)
        ensures
            password@ == text@,
    {
        Password(text.to_owned(), PhantomData)
    }

    pub fn as_str(&self) -> (s: &str)
        ensures
            s@ == self@,
    {
        self.0.as_str()
    }

    pub fn into_string(self) -> (s: String)
        ensures
            s@ == self@,
    {
        self.0
    }

    /// Whether both passwords hold the same text.
    pub fn same_as(&self, other: &Self) -> (same: bool)
        ensures
            same == (self@ == other@),
    {
        self.0 == other.0
    }

    /// A copy of this password.
    pub fn duplicate(&self) -> (e: Self)
        ensures
            e == *self,
    {
        Password(self.0.clone(), PhantomData)
    }
}

impl<T> PartialEq for Password<T> {
    fn eq(&self, other: &Self) -> (same: bool) {
        self.0 == other.0
    }
}

impl<T> PartialEqSpecImpl for Password<T> {
    open spec fn obeys_eq_spec() -> bool {
        true
    }

    /// Equal when the texts are equal.
    open spec fn eq_spec(&self, other: &Self) -> bool {
        self@ == other@
    }
}

impl<T> Eq for Password<T> {
}

} // verus!
