use ca_core::entity::auth_context::{AuthContext, AuthError};
use ca_core::entity::signup_process::{
    Error as SignupError, Id as SignupId, SignupStateEnum,
};
use ca_core::entity::user::{Email, Id as UserId};
use ca_core::gateway::database::signup_process::{GetError, Record, SaveError};
use ca_core::gateway::database::token::{GenError, Record as TokenRecord};
use ca_core::gateway::service::email::EmailServiceError;
use ca_core::usecase::command::{Command, Reply, Step};
use ca_core::usecase::signup_process::send_verification_email::{
    Error, Request, SendVerificationEmail,
};
use ca_core::usecase::Usecase;
use ca_core::value_object::Role;
use uuid::Uuid;
use ca_core::value_object::Timestamp;

const TEST_EMAIL: &str = "test@email.com";
const TEST_TOKEN: &str = "test_token";
const TEST_UUID: &str = "9dcccf0f-a1ff-49fb-a238-cd9d88502391";

fn signup_id() -> SignupId {
    SignupId::new(Uuid::parse_str(TEST_UUID).unwrap().as_u128())
}

fn initialized_record() -> Record {
    Record {
        id: signup_id(),
        state: SignupStateEnum::Initialized { email: Email::new(TEST_EMAIL) },
        entered_at: Timestamp { secs: 1_700_000_000, nanos: 0 },
    }
}

/// Runs the use case, answering each command with the next scripted reply;
/// returns the commands it asked for and its result.
fn run(
    usecase: &SendVerificationEmail,
    req: Request,
    replies: Vec<Reply>,
) -> (Vec<Command>, Result<ca_core::usecase::signup_process::send_verification_email::Response, Error>) {
    let (mut state, mut step) = usecase.start(req);
    let mut commands = Vec::new();
    let mut replies = replies.into_iter();
    loop {
        match step {
            Step::Finish(result) => {
                assert_eq!(usecase.awaited(&state), None);
                assert!(replies.next().is_none(), "a scripted reply was not used");
                return (commands, result);
            },
            Step::Run(command) => {
                let reply = replies.next().expect("the use case asked for an unscripted call");
                assert_eq!(usecase.awaited(&state), Some(command.reply_kind()));
                assert_eq!(usecase.awaited(&state), Some(reply.kind()));
                commands.push(command);
                let (next_state, next_step) = usecase.resume(state, reply);
                state = next_state;
                step = next_step;
            },
        }
    }
}

fn saved_state(command: &Command) -> &SignupStateEnum {
    match command {
        Command::SaveLatestSignupState { record, in_transaction } => {
            assert!(!in_transaction);
            assert_eq!(record.id, signup_id());
            &record.state
        },
        other => panic!("expected a save, got {:?}", other),
    }
}

#[test]
fn test_send_verification_email_success() {
    let usecase = SendVerificationEmail::new();
    let (commands, result) = run(
        &usecase,
        Request { id: signup_id() },
        vec![
            Reply::LatestSignupState(Ok(initialized_record())),
            Reply::TokenGenerated(Ok(TokenRecord { token: TEST_TOKEN.to_string() })),
            Reply::VerificationEmailSent(Ok(())),
            Reply::SignupStateSaved(Ok(())),
        ],
    );
    assert_eq!(result.unwrap().id, signup_id());
    assert!(matches!(&commands[0], Command::GetLatestSignupState { id, in_transaction: false } if *id == signup_id()));
    assert!(matches!(&commands[1], Command::GenerateToken { email } if email == TEST_EMAIL));
    assert!(matches!(&commands[2], Command::SendVerificationEmail { to, token } if to.as_str() == TEST_EMAIL && token == TEST_TOKEN));
    assert!(matches!(saved_state(&commands[3]), SignupStateEnum::VerificationEmailSent { email } if email.as_str() == TEST_EMAIL));
}

#[test]
fn test_send_verification_email_fails_get_latest_state_connection() {
    let (commands, result) = run(
        &SendVerificationEmail::new(),
        Request { id: signup_id() },
        vec![Reply::LatestSignupState(Err(GetError::Connection))],
    );
    assert_eq!(commands.len(), 1);
    assert_eq!(result.unwrap_err(), Error::Repo);
}

#[test]
fn test_send_verification_email_fails_get_latest_state_not_found() {
    let (_, result) = run(
        &SendVerificationEmail::new(),
        Request { id: signup_id() },
        vec![Reply::LatestSignupState(Err(GetError::NotFound))],
    );
    assert_eq!(result.unwrap_err(), Error::NotFound(signup_id()));
}

#[test]
fn test_send_verification_email_fails_incorrect_state() {
    let (_, result) = run(
        &SendVerificationEmail::new(),
        Request { id: signup_id() },
        vec![Reply::LatestSignupState(Ok(Record {
            id: signup_id(),
            state: SignupStateEnum::ForDeletion,
            entered_at: Timestamp { secs: 0, nanos: 0 },
        }))],
    );
    assert_eq!(result.unwrap_err(), Error::IncorrectState(signup_id()));
}

#[test]
fn test_send_verification_email_fails_token_gen() {
    let (commands, result) = run(
        &SendVerificationEmail::new(),
        Request { id: signup_id() },
        vec![
            Reply::LatestSignupState(Ok(initialized_record())),
            Reply::TokenGenerated(Err(GenError::Connection)),
            Reply::SignupStateSaved(Ok(())),
        ],
    );
    assert_eq!(result.unwrap_err(), Error::TokenRepoError(GenError::Connection));
    match saved_state(&commands[2]) {
        SignupStateEnum::Failed { previous_state, error } => {
            assert_eq!(*error, SignupError::TokenGenrationFailed);
            assert!(matches!(&**previous_state, SignupStateEnum::Initialized { email } if email.as_str() == TEST_EMAIL));
        },
        other => panic!("expected a failed state, got {:?}", other),
    }
}

#[test]
fn test_send_verification_email_fails_email_send() {
    let (commands, result) = run(
        &SendVerificationEmail::new(),
        Request { id: signup_id() },
        vec![
            Reply::LatestSignupState(Ok(initialized_record())),
            Reply::TokenGenerated(Ok(TokenRecord { token: TEST_TOKEN.to_string() })),
            Reply::VerificationEmailSent(Err(EmailServiceError::SendEmailFailed)),
            Reply::SignupStateSaved(Ok(())),
        ],
    );
    assert_eq!(result.unwrap_err(), Error::EmailServiceError(EmailServiceError::SendEmailFailed));
    match saved_state(&commands[3]) {
        SignupStateEnum::Failed { previous_state, error } => {
            assert_eq!(*error, SignupError::VerificationEmailSendError);
            assert!(matches!(&**previous_state, SignupStateEnum::Initialized { .. }));
        },
        other => panic!("expected a failed state, got {:?}", other),
    }
}

#[test]
fn send_verification_email_failed_store_after_failure_is_repo() {
    let (_, result) = run(
        &SendVerificationEmail::new(),
        Request { id: signup_id() },
        vec![
            Reply::LatestSignupState(Ok(initialized_record())),
            Reply::TokenGenerated(Err(GenError::Connection)),
            Reply::SignupStateSaved(Err(SaveError::Connection)),
        ],
    );
    assert_eq!(result.unwrap_err(), Error::Repo);
}

#[test]
fn send_verification_email_failed_final_store_is_repo() {
    let (_, result) = run(
        &SendVerificationEmail::new(),
        Request { id: signup_id() },
        vec![
            Reply::LatestSignupState(Ok(initialized_record())),
            Reply::TokenGenerated(Ok(TokenRecord { token: TEST_TOKEN.to_string() })),
            Reply::VerificationEmailSent(Ok(())),
            Reply::SignupStateSaved(Err(SaveError::Connection)),
        ],
    );
    assert_eq!(result.unwrap_err(), Error::Repo);
}

fn user_id_zero() -> UserId {
    UserId::new(0)
}

#[test]
fn send_verification_email_authorize_admin_zero() {
    let req = Request { id: signup_id() };
    let result = SendVerificationEmail::new()
        .authorize(&req, Some(AuthContext::new(user_id_zero(), Role::Admin)));
    assert!(result.is_ok());
}

#[test]
fn send_verification_email_authorize_user() {
    let req = Request { id: signup_id() };
    let result = SendVerificationEmail::new()
        .authorize(&req, Some(AuthContext::new(user_id_zero(), Role::User)));
    assert_eq!(result.unwrap_err(), AuthError::Unauthorized);
}

#[test]
fn send_verification_email_authorize_none() {
    let req = Request { id: signup_id() };
    let result = SendVerificationEmail::new().authorize(&req, None);
    assert_eq!(result.unwrap_err(), AuthError::Unauthorized);
}
