use ca_core::entity::auth_context::AuthContext;
use ca_core::entity::signup_process::{Error as SignupError, Id as SignupId, SignupStateEnum};
use ca_core::entity::user::{Email, Id as UserId};
use ca_core::gateway::database::signup_process::{GetError, Record, SaveError};
use ca_core::gateway::database::token::VerifyError;
use ca_core::usecase::command::{Command, Reply, Step};
use ca_core::usecase::signup_process::verify_email::{Error, Request, VerifyEmail};
use ca_core::usecase::validation::{Field, Rule};
use ca_core::usecase::Usecase;
use ca_core::value_object::Role;
use uuid::Uuid;
use ca_core::value_object::Timestamp;

const TEST_EMAIL: &str = "test@email.com";
const TEST_TOKEN: &str = "test_token";
const TEST_UUID: &str = "9dcccf0f-a1ff-49fb-a238-cd9d88502391";

fn signup_id() -> SignupId {
    SignupId::new(Uuid::parse_str(TEST_UUID).unwrap().as_u128())
}

fn verification_email_sent_record() -> Record {
    Record {
        id: signup_id(),
        state: SignupStateEnum::VerificationEmailSent { email: Email::new(TEST_EMAIL) },
        entered_at: Timestamp { secs: 1_700_000_000, nanos: 0 },
    }
}

fn request() -> Request {
    Request { id: signup_id(), token: TEST_TOKEN.to_string() }
}

fn run<U: Usecase>(usecase: &U, req: U::Request, replies: Vec<Reply>) -> (
    Vec<Command>,
    Result<U::Response, U::Error>,
) {
    let (mut state, mut step) = usecase.start(req);
    let mut commands = Vec::new();
    let mut replies = replies.into_iter();
    loop {
        match step {
            Step::Finish(result) => {
                assert_eq!(usecase.awaited(&state), None);
                assert!(replies.next().is_none(), "a scripted reply was not used");
                return (commands, result);
            },
            Step::Run(command) => {
                let reply = replies.next().expect("the use case asked for an unscripted call");
                assert_eq!(usecase.awaited(&state), Some(command.reply_kind()));
                assert_eq!(usecase.awaited(&state), Some(reply.kind()));
                commands.push(command);
                let (next_state, next_step) = usecase.resume(state, reply);
                state = next_state;
                step = next_step;
            },
        }
    }
}

#[test]
fn test_verify_email_success() {
    let (commands, result) = run(
        &VerifyEmail::new(),
        request(),
        vec![
            Reply::TransactionBegun,
            Reply::LatestSignupState(Ok(verification_email_sent_record())),
            Reply::TokenVerified(Ok(())),
            Reply::SignupStateSaved(Ok(())),
            Reply::TransactionCommitted(Ok(())),
        ],
    );
    assert_eq!(result.unwrap().id, signup_id());
    assert!(matches!(commands[0], Command::BeginTransaction));
    assert!(matches!(&commands[1], Command::GetLatestSignupState { id, in_transaction: true } if *id == signup_id()));
    assert!(matches!(&commands[2], Command::VerifyToken { email, token, in_transaction: true } if email == TEST_EMAIL && token == TEST_TOKEN));
    match &commands[3] {
        Command::SaveLatestSignupState { record, in_transaction: true } => {
            assert_eq!(record.id, signup_id());
            assert!(matches!(&record.state, SignupStateEnum::EmailVerified { email } if email.as_str() == TEST_EMAIL));
        },
        other => panic!("expected a save, got {:?}", other),
    }
    assert!(matches!(commands[4], Command::CommitTransaction));
}

#[test]
fn test_verify_email_fails_verify_token_min_lenght() {
    let (commands, result) = run(
        &VerifyEmail::new(),
        Request { id: SignupId::new(42), token: String::new() },
        vec![],
    );
    assert!(commands.is_empty());
    match result.unwrap_err() {
        Error::TokenInvalidity(inv) => {
            assert_eq!(inv.violations.len(), 1);
            assert_eq!(inv.violations[0].field, Field::Token);
            assert_eq!(inv.violations[0].rule, Rule::Length { min: 1, max: 255 });
            assert_eq!(inv.violations[0].value, "");
        },
        other => panic!("expected a token invalidity, got {:?}", other),
    }
}

#[test]
fn verify_email_token_of_256_chars_is_refused_and_255_accepted() {
    let long = "a".repeat(256);
    let (_, result) = run(&VerifyEmail::new(), Request { id: signup_id(), token: long }, vec![]);
    assert!(matches!(result, Err(Error::TokenInvalidity(_))));
    let (_, step) = VerifyEmail::new().start(Request { id: signup_id(), token: "a".repeat(255) });
    assert!(matches!(step, Step::Run(Command::BeginTransaction)));
}

#[test]
fn test_verify_email_fail_get_latest_state_connection() {
    let (_, result) = run(
        &VerifyEmail::new(),
        request(),
        vec![Reply::TransactionBegun, Reply::LatestSignupState(Err(GetError::Connection))],
    );
    assert_eq!(result.unwrap_err(), Error::Repo);
}

#[test]
fn test_verify_email_fail_get_latest_state_not_found() {
    let (_, result) = run(
        &VerifyEmail::new(),
        request(),
        vec![Reply::TransactionBegun, Reply::LatestSignupState(Err(GetError::NotFound))],
    );
    assert_eq!(result.unwrap_err(), Error::NotFound(signup_id()));
}

#[test]
fn test_verify_email_fail_get_latest_state_incorrect_state() {
    let (_, result) = run(
        &VerifyEmail::new(),
        request(),
        vec![
            Reply::TransactionBegun,
            Reply::LatestSignupState(Ok(Record {
                id: signup_id(),
                state: SignupStateEnum::Initialized { email: Email::new(TEST_EMAIL) },
                entered_at: Timestamp { secs: 0, nanos: 0 },
            })),
        ],
    );
    assert_eq!(result.unwrap_err(), Error::IncorrectState(signup_id()));
}

fn refused(error: VerifyError) -> (Vec<Command>, Result<ca_core::usecase::signup_process::verify_email::Response, Error>) {
    run(
        &VerifyEmail::new(),
        request(),
        vec![
            Reply::TransactionBegun,
            Reply::LatestSignupState(Ok(verification_email_sent_record())),
            Reply::TokenVerified(Err(error)),
            Reply::TransactionCommitted(Ok(())),
        ],
    )
}

#[test]
fn test_verify_fail_token_verification_connection() {
    let (commands, result) = refused(VerifyError::Connection);
    assert_eq!(result.unwrap_err(), Error::TokenRepoError(VerifyError::Connection));
    assert!(matches!(commands[3], Command::CommitTransaction));
}

#[test]
fn test_verify_fail_token_verification_not_found() {
    let (_, result) = refused(VerifyError::NotFound);
    assert_eq!(result.unwrap_err(), Error::TokenRepoError(VerifyError::NotFound));
}

#[test]
fn test_verify_fail_token_verification_token_missmatch() {
    let (_, result) = refused(VerifyError::Mismatch);
    assert_eq!(result.unwrap_err(), Error::TokenRepoError(VerifyError::Mismatch));
}

#[test]
fn test_verify_fail_token_verification_token_expired() {
    let (commands, result) = run(
        &VerifyEmail::new(),
        request(),
        vec![
            Reply::TransactionBegun,
            Reply::LatestSignupState(Ok(verification_email_sent_record())),
            Reply::TokenVerified(Err(VerifyError::TokenExpired)),
            Reply::SignupStateSaved(Ok(())),
            Reply::TransactionCommitted(Ok(())),
        ],
    );
    assert_eq!(result.unwrap_err(), Error::TokenRepoError(VerifyError::TokenExpired));
    match &commands[3] {
        Command::SaveLatestSignupState { record, in_transaction: true } => match &record.state {
            SignupStateEnum::Failed { previous_state, error } => {
                assert_eq!(*error, SignupError::VerificationTimedOut);
                assert!(matches!(&**previous_state, SignupStateEnum::VerificationEmailSent { .. }));
            },
            other => panic!("expected a failed state, got {:?}", other),
        },
        other => panic!("expected a save, got {:?}", other),
    }
}

#[test]
fn test_verify_email_fail_save_latest_state_connection() {
    let (_, result) = run(
        &VerifyEmail::new(),
        request(),
        vec![
            Reply::TransactionBegun,
            Reply::LatestSignupState(Ok(verification_email_sent_record())),
            Reply::TokenVerified(Ok(())),
            Reply::SignupStateSaved(Err(SaveError::Connection)),
        ],
    );
    assert_eq!(result.unwrap_err(), Error::Repo);
}

#[test]
fn verify_email_failed_commit_is_repo() {
    let (_, result) = run(
        &VerifyEmail::new(),
        request(),
        vec![
            Reply::TransactionBegun,
            Reply::LatestSignupState(Ok(verification_email_sent_record())),
            Reply::TokenVerified(Ok(())),
            Reply::SignupStateSaved(Ok(())),
            Reply::TransactionCommitted(Err(())),
        ],
    );
    assert_eq!(result.unwrap_err(), Error::Repo);
}

#[test]
fn verify_email_authorize_admin_zero() {
    let ctx = AuthContext::new(UserId::new(0), Role::Admin);
    assert!(VerifyEmail::new().authorize(&request(), Some(ctx)).is_ok());
}

#[test]
fn verify_email_authorize_user_zero() {
    let ctx = AuthContext::new(UserId::new(0), Role::User);
    assert!(VerifyEmail::new().authorize(&request(), Some(ctx)).is_ok());
}

#[test]
fn verify_email_authorize_none() {
    assert!(VerifyEmail::new().authorize(&request(), None).is_ok());
}
