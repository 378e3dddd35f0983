use ca_core::value_object::id::Id;
use uuid::Uuid;

#[test]
fn format_id() {
    let id: Id<()> = Id::new(Uuid::parse_str("550e8400-e29b-41d4-a716-446655440000").unwrap().as_u128());
    assert_eq!(id.to_string(), "550e8400-e29b-41d4-a716-446655440000");
}

use ca_core::entity::auth_context::AuthContext;
use ca_core::entity::user::{Email, Id as UserId, Password, User, UserName};
use ca_core::gateway::service::email::EmailAddress;
use ca_core::value_object::Role;

#[test]
fn id_text_is_hyphenated_lower_hex() {
    let id: Id<()> = Id::new(0);
    assert_eq!(id.to_string(), "00000000-0000-0000-0000-000000000000");
    let id: Id<()> = Id::new(u128::MAX);
    assert_eq!(id.to_string(), "ffffffff-ffff-ffff-ffff-ffffffffffff");
    let id: Id<()> = Id::new(0x0123456789abcdef_fedcba9876543210);
    assert_eq!(id.to_string(), "01234567-89ab-cdef-fedc-ba9876543210");
}

#[test]
fn ids_compare_by_value() {
    let a: Id<()> = Id::new(5);
    assert!(a.same_as(&Id::new(5)));
    assert!(!a.same_as(&Id::new(6)));
    assert_eq!(a, Id::new(5));
    assert_eq!(a.as_u128(), 5);
}

#[test]
fn value_objects_keep_their_text() {
    let email = Email::new("a@b.c");
    assert_eq!(email.as_str(), "a@b.c");
    assert_eq!(email.to_string(), "a@b.c");
    assert_eq!(email.duplicate().into_string(), "a@b.c");
    let name = UserName::new("name");
    assert_eq!(name.as_str(), "name");
    assert_eq!(name, UserName::new("name"));
    let password = Password::new("secret");
    assert!(password.same_as(&Password::new("secret")));
    assert!(!password.same_as(&Password::new("secret2")));
    assert_eq!(EmailAddress::new("x@y.z").as_str(), "x@y.z");
}

#[test]
fn user_update_keeps_id_and_role() {
    let mut user = User::new(UserId::new(3), Role::Admin, Email::new("a@b.c"), UserName::new("n"), Password::new("p"));
    user.update(Email::new("d@e.f"), UserName::new("m"), Password::new("q"));
    assert_eq!(user.id(), UserId::new(3));
    assert_eq!(*user.role(), Role::Admin);
    assert_eq!(user.email().as_str(), "d@e.f");
    assert_eq!(user.username().as_str(), "m");
    assert_eq!(user.password().as_str(), "q");
}

#[test]
fn auth_context_admin_check() {
    let admin = AuthContext::new(UserId::new(1), Role::Admin);
    assert!(admin.is_admin());
    assert_eq!(*admin.user_id(), UserId::new(1));
    assert_eq!(*admin.role(), Role::Admin);
    assert!(!AuthContext::new(UserId::new(1), Role::User).is_admin());
}
