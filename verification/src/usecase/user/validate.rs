use crate::entity::user::{Email, Password, UserName};
use vstd::prelude::*;

verus! {

/// The user properties to check, as given.
#[derive(Debug)]
pub struct Request<'a> {
    pub username: &'a str,
    pub email: &'a str,
    pub password: &'a str,
}

pub type Response = Result<(), UserInvalidity>;

/// The first user property that is out of bounds.
#[derive(Debug, Clone, Copy, PartialEq, Eq, Structural)]
pub enum UserInvalidity {
    UserName(UserNameInvalidity),
    Email(EmailInvalidity),
    Password(PasswordInvalidity),
}

/// A user name whose length in bytes is out of bounds.
#[derive(Debug, Clone, Copy, PartialEq, Eq, Structural)]
pub enum UserNameInvalidity {
    MinLength { min: usize, actual: usize },
    MaxLength { max: usize, actual: usize },
}

/// An email address whose length in bytes is out of bounds.
#[derive(Debug, Clone, Copy, PartialEq, Eq, Structural)]
pub enum EmailInvalidity {
    MinLength { min: usize, actual: usize },
    MaxLength { max: usize, actual: usize },
}

/// A password whose length in bytes is out of bounds.
#[derive(Debug, Clone, Copy, PartialEq, Eq, Structural)]
pub enum PasswordInvalidity {
    MinLength { min: usize, actual: usize },
    MaxLength { max: usize, actual: usize },
}

/// What checking a user name gives: too short is reported before too long.
pub open spec fn username_outcome(username: &str) -> Result<(), UserNameInvalidity> {
    if username.len() < UserName::min_len() {
        Err(UserNameInvalidity::MinLength { min: UserName::min_len(), actual: username.len() })
    } else if username.len() > UserName::max_len() {
        Err(UserNameInvalidity::MaxLength { max: UserName::max_len(), actual: username.len() })
    } else {
        Ok(())
    }
}

/// What checking an email address gives: too short is reported before too long.
pub open spec fn email_outcome(email: &str) -> Result<(), EmailInvalidity> {
    if email.len() < Email::min_len() {
        Err(EmailInvalidity::MinLength { min: Email::min_len(), actual: email.len() })
    } else if email.len() > Email::max_len() {
        Err(EmailInvalidity::MaxLength { max: Email::max_len(), actual: email.len() })
    } else {
        Ok(())
    }
}

/// What checking a password gives: too short is reported before too long.
pub open spec fn password_outcome(password: &str) -> Result<(), PasswordInvalidity> {
    if password.len() < Password::min_len() {
        Err(PasswordInvalidity::MinLength { min: Password::min_len(), actual: password.len() })
    } else if password.len() > Password::max_len() {
        Err(PasswordInvalidity::MaxLength { max: Password::max_len(), actual: password.len() })
    } else {
        Ok(())
    }
}

/// What checking all three gives: the user name first, then the email address,
/// then the password; the first failure is the answer.
pub open spec fn user_properties_outcome(req: &Request) -> Response {
    match username_outcome(req.username) {
        Err(e) => Err(UserInvalidity::UserName(e)),
        Ok(()) => match email_outcome(req.email) {
            Err(e) => Err(UserInvalidity::Email(e)),
            Ok(()) => match password_outcome(req.password) {
                Err(e) => Err(UserInvalidity::Password(e)),
                Ok(()) => Ok(()),
            },
        },
    }
}

/// Whether a length lies within the inclusive bounds.
pub open spec fn within(len: usize, min: usize, max: usize) -> bool {
    min <= len <= max
}

/// Checks the byte lengths of the user name, the email address and the
/// password against their limits, in that order.
pub fn validate_user_properties(req: &Request) -> (r: Response)
    ensures
        r == user_properties_outcome(req),
        r is Ok <==> {
            &&& within(req.username.len(), UserName::min_len(), UserName::max_len())
            &&& within(req.email.len(), Email::min_len(), Email::max_len())
            &&& within(req.password.len(), Password::min_len(), Password::max_len())
        },
{
    match validate_username(req.username) {
        Err(e) => {
            return Err(UserInvalidity::UserName(e));
        },
        Ok(()) => {},
    }
    match validate_email(req.email) {
        Err(e) => {
            return Err(UserInvalidity::Email(e));
        },
        Ok(()) => {},
    }
    match validate_password(req.password) {
        Err(e) => {
            return Err(UserInvalidity::Password(e));
        },
        Ok(()) => {},
    }
    Ok(())
}

fn validate_username(username: &str) -> (r: Result<(), UserNameInvalidity>)
    ensures
        r == username_outcome(username),
{
    let actual = username.len();
    let min = UserName::min_len();
    if actual < min {
        return Err(UserNameInvalidity::MinLength { min, actual });
    }
    let max = UserName::max_len();
    if actual > max {
        return Err(UserNameInvalidity::MaxLength { max, actual });
    }
    Ok(())
}

fn validate_email(email: &str) -> (r: Result<(), EmailInvalidity>)
    ensures
        r == email_outcome(email),
{
    let actual = email.len();
    let min = Email::min_len();
    if actual < min {
        return Err(EmailInvalidity::MinLength { min, actual });
    }
    let max = Email::max_len();
    if actual > max {
        return Err(EmailInvalidity::MaxLength { max, actual });
    }
    Ok(())
}

fn validate_password(password: &str) -> (r: Result<(), PasswordInvalidity>)
    ensures
        r == password_outcome(password),
{
    let actual = password.len();
    let min = Password::min_len();
    if actual < min {
        return Err(PasswordInvalidity::MinLength { min, actual });
    }
    let max = Password::max_len();
    if actual > max {
        return Err(PasswordInvalidity::MaxLength { max, actual });
    }
    Ok(())
}

} // verus!
