use ca_core::adapter::boundary::Error;
use ca_core::adapter::controller::{Controller, Handling};
use ca_core::entity::auth_context::{AuthContext, AuthError};
use ca_core::entity::auth_strategy::AuthStrategy;
use ca_core::entity::user::Id as UserId;
use ca_core::usecase::user::{get_all, get_one, login};
use ca_core::usecase::{is_authorization_defined, Usecase};
use ca_core::value_object::Role;
use std::sync::Arc;

fn controller() -> Controller<u32, ()> {
    Controller::new(Arc::new(7))
}

#[test]
fn controller_keeps_its_dependencies() {
    let c = controller();
    assert_eq!(*c.dependency_provider(), 7);
}

#[test]
fn failed_ingestion_is_presented() {
    let usecase = get_all::GetAll::new();
    let handling = controller().after_ingest(&usecase, Err(Error::ParseInputError("bad".to_string())), Some("token".to_string()));
    match handling {
        Handling::Present { result: Err(Error::ParseInputError(text)) } => assert_eq!(text, "bad"),
        other => panic!("unexpected handling {:?}", other),
    }
}

#[test]
fn token_leads_to_auth_extraction() {
    let usecase = get_all::GetAll::new();
    let handling = controller().after_ingest(&usecase, Ok(get_all::Request), Some("token".to_string()));
    assert!(matches!(handling, Handling::ExtractAuth { token, .. } if token == "token"));
}

#[test]
fn anonymous_request_for_admin_use_case_is_unauthorized() {
    let usecase = get_all::GetAll::new();
    let handling = controller().after_ingest(&usecase, Ok(get_all::Request), None);
    assert!(matches!(handling, Handling::Present { result: Err(Error::AuthError(AuthError::Unauthorized)) }));
}

#[test]
fn anonymous_request_for_public_use_case_is_run() {
    let usecase = login::Login::new();
    let req = login::Request { username: "u".to_string(), password: "p".to_string() };
    let handling = controller().after_ingest(&usecase, Ok(req), None);
    assert!(matches!(handling, Handling::Execute { req } if req.username == "u"));
}

#[test]
fn owner_is_authorized_others_not() {
    let usecase = get_one::GetOne::new();
    let owner = UserId::new(11);
    let req = get_one::Request { id: owner };
    let handling = controller().after_auth(&usecase, req, Some(AuthContext::new(owner, Role::User)));
    assert!(matches!(handling, Handling::Execute { .. }));
    let handling = controller().after_auth(&usecase, req, Some(AuthContext::new(UserId::new(12), Role::User)));
    assert!(matches!(handling, Handling::Present { result: Err(Error::AuthError(AuthError::Unauthorized)) }));
}

#[test]
fn execution_errors_become_usecase_errors() {
    let c = controller();
    let ok: Result<u8, Error<&str>> = c.after_execution(Ok::<u8, &str>(3));
    assert_eq!(ok, Ok(3));
    let err: Result<u8, Error<&str>> = c.after_execution(Err::<u8, &str>("boom"));
    assert_eq!(err, Err(Error::UsecaseError("boom")));
}

#[test]
fn authorization_definedness() {
    let ctx = Some(AuthContext::new(UserId::new(1), Role::User));
    assert!(!is_authorization_defined(AuthStrategy::AdminAndOwnerOnly, &None, &ctx));
    assert!(is_authorization_defined(AuthStrategy::AdminAndOwnerOnly, &Some(UserId::new(1)), &ctx));
    assert!(is_authorization_defined(AuthStrategy::AdminOnly, &None, &ctx));
    assert!(is_authorization_defined(AuthStrategy::AdminAndOwnerOnly, &None, &None));
    let admin = Some(AuthContext::new(UserId::new(1), Role::Admin));
    assert!(is_authorization_defined(AuthStrategy::AdminAndOwnerOnly, &None, &admin));
}

#[test]
fn auth_error_converts_to_boundary_error() {
    let e: Error<()> = AuthError::Unauthorized.into();
    assert_eq!(e, Error::AuthError(AuthError::Unauthorized));
}
