use ca_core::entity::user::{Email, Password, UserName};
use ca_core::usecase::user::validate::{
    validate_user_properties, EmailInvalidity, PasswordInvalidity, Request, UserInvalidity,
    UserNameInvalidity,
};

fn request<'a>(username: &'a str, email: &'a str, password: &'a str) -> Request<'a> {
    Request { username, email, password }
}

#[test]
fn user_properties_within_bounds_are_valid() {
    let req = request("jane", "jane@example.com", "secret-password");
    assert_eq!(validate_user_properties(&req), Ok(()));
}

#[test]
fn user_property_limits() {
    assert_eq!((UserName::min_len(), UserName::max_len()), (1, 30));
    assert_eq!((Email::min_len(), Email::max_len()), (3, 254));
    assert_eq!((Password::min_len(), Password::max_len()), (5, 60));
}

#[test]
fn empty_username_is_too_short() {
    let req = request("", "jane@example.com", "secret");
    assert_eq!(
        validate_user_properties(&req),
        Err(UserInvalidity::UserName(UserNameInvalidity::MinLength { min: 1, actual: 0 }))
    );
}

#[test]
fn long_username_is_too_long() {
    let name = "x".repeat(31);
    let req = request(&name, "jane@example.com", "secret");
    assert_eq!(
        validate_user_properties(&req),
        Err(UserInvalidity::UserName(UserNameInvalidity::MaxLength { max: 30, actual: 31 }))
    );
}

#[test]
fn username_length_counts_bytes() {
    // fifteen two-byte characters: 15 chars, 30 bytes, still allowed
    let fits = "ü".repeat(15);
    assert_eq!(validate_user_properties(&request(&fits, "a@b", "secret")), Ok(()));
    // sixteen of them: 16 chars but 32 bytes
    let over = "ü".repeat(16);
    assert_eq!(
        validate_user_properties(&request(&over, "a@b", "secret")),
        Err(UserInvalidity::UserName(UserNameInvalidity::MaxLength { max: 30, actual: 32 }))
    );
}

#[test]
fn short_email_is_too_short() {
    let req = request("jane", "a@", "secret");
    assert_eq!(
        validate_user_properties(&req),
        Err(UserInvalidity::Email(EmailInvalidity::MinLength { min: 3, actual: 2 }))
    );
}

#[test]
fn long_email_is_too_long() {
    let email = format!("{}@example.com", "a".repeat(243));
    let req = request("jane", &email, "secret");
    assert_eq!(
        validate_user_properties(&req),
        Err(UserInvalidity::Email(EmailInvalidity::MaxLength { max: 254, actual: 255 }))
    );
}

#[test]
fn short_password_is_too_short() {
    let req = request("jane", "jane@example.com", "abcd");
    assert_eq!(
        validate_user_properties(&req),
        Err(UserInvalidity::Password(PasswordInvalidity::MinLength { min: 5, actual: 4 }))
    );
}

#[test]
fn long_password_is_too_long() {
    let password = "p".repeat(61);
    let req = request("jane", "jane@example.com", &password);
    assert_eq!(
        validate_user_properties(&req),
        Err(UserInvalidity::Password(PasswordInvalidity::MaxLength { max: 60, actual: 61 }))
    );
}

#[test]
fn username_is_checked_before_email_and_password() {
    let req = request("", "", "");
    assert_eq!(
        validate_user_properties(&req),
        Err(UserInvalidity::UserName(UserNameInvalidity::MinLength { min: 1, actual: 0 }))
    );
    let req = request("jane", "", "");
    assert_eq!(
        validate_user_properties(&req),
        Err(UserInvalidity::Email(EmailInvalidity::MinLength { min: 3, actual: 0 }))
    );
}

#[test]
fn bounds_are_inclusive() {
    let name = "n".repeat(30);
    let password = "p".repeat(60);
    assert_eq!(validate_user_properties(&request("n", "a@b", "12345")), Ok(()));
    assert_eq!(validate_user_properties(&request(&name, "a@b", &password)), Ok(()));
}
