use vstd::prelude::*;

verus! {

/// The address an email is sent to.
#[derive(Clone, Debug)]
pub struct EmailAddress(String);

impl View for EmailAddress {
    type V = Seq<char>;

    closed spec fn view(&self) -> Seq<char> {
        self.0@
    }
}

impl EmailAddress {
    pub fn new(address: &str) -> (a: Self)
        ensures
            a@ == address@,
    {
        EmailAddress(address.to_owned())
    }

    pub fn as_str(&self) -> (s: &str)
        ensures
            s@ == self@,
    {
        self.0.as_str()
    }
}

#[derive(Clone, Debug, PartialEq, Eq)]
pub enum EmailServiceError {
    InvalidEmailAddress(String),
    SendEmailFailed,
}

} // verus!
