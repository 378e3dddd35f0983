use ca_core::entity::auth_context::AuthContext;
use ca_core::entity::signup_process::{Id as SignupId, SignupStateEnum};
use ca_core::entity::user::Id as UserId;
use ca_core::gateway::database::identifier::NewIdError;
use ca_core::gateway::database::signup_process::SaveError;
use ca_core::usecase::command::{Command, Reply, Step};
use ca_core::usecase::signup_process::initialize::{Error, Initialize, Request};
use ca_core::usecase::validation::{Field, Rule};
use ca_core::usecase::Usecase;
use ca_core::value_object::Role;

const TEST_EMAIL: &str = "test@email.com";

fn run<U: Usecase>(usecase: &U, req: U::Request, replies: Vec<Reply>) -> (
    Vec<Command>,
    Result<U::Response, U::Error>,
) {
    let (mut state, mut step) = usecase.start(req);
    let mut commands = Vec::new();
    let mut replies = replies.into_iter();
    loop {
        match step {
            Step::Finish(result) => {
                assert_eq!(usecase.awaited(&state), None);
                assert!(replies.next().is_none(), "a scripted reply was not used");
                return (commands, result);
            },
            Step::Run(command) => {
                let reply = replies.next().expect("the use case asked for an unscripted call");
                assert_eq!(usecase.awaited(&state), Some(command.reply_kind()));
                assert_eq!(usecase.awaited(&state), Some(reply.kind()));
                commands.push(command);
                let (next_state, next_step) = usecase.resume(state, reply);
                state = next_state;
                step = next_step;
            },
        }
    }
}

fn request() -> Request {
    Request { email: TEST_EMAIL.to_string() }
}

#[test]
fn test_initialize_success() {
    let id = SignupId::new(0x1234);
    let (commands, result) = run(
        &Initialize::new(),
        request(),
        vec![Reply::NewSignupId(Ok(id)), Reply::SignupStateSaved(Ok(()))],
    );
    assert_eq!(result.unwrap().id, id);
    assert!(matches!(commands[0], Command::NewSignupId));
    match &commands[1] {
        Command::SaveLatestSignupState { record, in_transaction: false } => {
            assert_eq!(record.id, id);
            assert!(matches!(&record.state, SignupStateEnum::Initialized { email } if email.as_str() == TEST_EMAIL));
        },
        other => panic!("expected a save, got {:?}", other),
    }
}

#[test]
fn test_initialize_fails_verify_email_min_lenght() {
    let (commands, result) = run(&Initialize::new(), Request { email: "ttt".to_string() }, vec![]);
    assert!(commands.is_empty());
    match result.unwrap_err() {
        Error::EmailInvalidity(inv) => {
            assert_eq!(inv.violations.len(), 1);
            assert_eq!(inv.violations[0].field, Field::Email);
            assert_eq!(inv.violations[0].rule, Rule::Email);
            assert_eq!(inv.violations[0].value, "ttt");
        },
        other => panic!("expected an email invalidity, got {:?}", other),
    }
}

#[test]
fn test_initialize_fails_signup_id_gen() {
    let (_, result) = run(&Initialize::new(), request(), vec![Reply::NewSignupId(Err(NewIdError))]);
    assert_eq!(result.unwrap_err(), Error::NewId);
}

#[test]
fn test_initialize_fails_save_latest_state() {
    let (_, result) = run(
        &Initialize::new(),
        request(),
        vec![
            Reply::NewSignupId(Ok(SignupId::new(5))),
            Reply::SignupStateSaved(Err(SaveError::Connection)),
        ],
    );
    assert_eq!(result.unwrap_err(), Error::Repo);
}

#[test]
fn initialize_authorize_admin_zero() {
    let ctx = AuthContext::new(UserId::new(0), Role::Admin);
    assert!(Initialize::new().authorize(&request(), Some(ctx)).is_ok());
}

#[test]
fn initialize_authorize_user_zero() {
    let ctx = AuthContext::new(UserId::new(0), Role::User);
    assert!(Initialize::new().authorize(&request(), Some(ctx)).is_ok());
}

#[test]
fn initialize_authorize_none() {
    assert!(Initialize::new().authorize(&request(), None).is_ok());
}
