use crate::value_object::{self, Role};
use vstd::prelude::*;

verus! {

/// Marks the value objects that belong to a user.
#[derive(Clone, Copy, Debug, PartialEq, Eq)]
pub struct UserValue;

pub type Id = value_object::Id<UserValue>;

pub type Email = value_object::Email<UserValue>;

pub type UserName = value_object::UserName<UserValue>;

pub type Password = value_object::Password<UserValue>;

/// Length limits, in bytes, of a user name: the same bounds the user use cases
/// enforce on a requested name.
impl UserName {
    #[verifier::allow_in_spec]
    pub fn min_len() -> usize
        returns
            1usize,
    {
        1
    }

    #[verifier::allow_in_spec]
    pub fn max_len() -> usize
        returns
            30usize,
    {
        30
    }
}

/// Length limits, in bytes, of an email address: the shortest address of the form
/// `a@b`, and the longest forward path that SMTP allows.
impl Email {
    #[verifier::allow_in_spec]
    pub fn min_len() -> usize
        returns
            3usize,
    {
        3
    }

    #[verifier::allow_in_spec]
    pub fn max_len() -> usize
        returns
            254usize,
    {
        254
    }
}

/// Length limits, in bytes, of a password: the same bounds the user use cases
/// enforce on a requested password.
impl Password {
    #[verifier::allow_in_spec]
    pub fn min_len() -> usize
        returns
            5usize,
    {
        5
    }

    #[verifier::allow_in_spec]
    pub fn max_len() -> usize
        returns
            60usize,
    {
        60
    }
}

/// A registered user.
#[derive(Clone, Debug)]
pub struct User {
    id: Id,
    role: Role,
    email: Email,
    username: UserName,
    password: Password,
}

impl User {
    pub closed spec fn spec_id(&self) -> Id {
        self.id
    }

    pub closed spec fn spec_role(&self) -> Role {
        self.role
    }

    pub closed spec fn spec_email(&self) -> Email {
        self.email
    }

    pub closed spec fn spec_username(&self) -> UserName {
        self.username
    }

    pub closed spec fn spec_password(&self) -> Password {
        self.password
    }

    pub fn new(id: Id, role: Role, email: Email, username: UserName, password: Password) -> (user:
        Self)
        ensures
            user.spec_id() == id,
            user.spec_role() == role,
            user.spec_email() == email,
            user.spec_username() == username,
            user.spec_password() == password,
    {
        User { id, role, email, username, password }
    }

    pub fn id(&self) -> (id: Id)
        ensures
            id == self.spec_id(),
    {
        self.id
    }

    pub fn role(&self) -> (role: &Role)
        ensures
            *role == self.spec_role(),
    {
        &self.role
    }

    pub fn email(&self) -> (email: &Email)
        ensures
            *email == self.spec_email(),
    {
        &self.email
    }

    pub fn username(&self) -> (username: &UserName)
        ensures
            *username == self.spec_username(),
    {
        &self.username
    }

    pub fn password(&self) -> (password: &Password)
        ensures
            *password == self.spec_password(),
    {
        &self.password
    }

    /// Replaces the email, user name and password; the id and role stay.
    pub fn update(&mut self, email: Email, username: UserName, password: Password)
        ensures
            final(self).spec_id() == old(self).spec_id(),
            final(self).spec_role() == old(self).spec_role(),
            final(self).spec_email() == email,
            final(self).spec_username() == username,
            final(self).spec_password() == password,
    {
        self.email = email;
        self.username = username;
        self.password = password;
    }

    /// A copy of this user.
    pub fn duplicate(&self) -> (user: Self)
        ensures
            user == *self,
    {
        User {
            id: self.id,
            role: self.role,
            email: self.email.duplicate(),
            username: self.username.duplicate(),
            password: self.password.duplicate(),
        }
    }
}

} // verus!
