use ca_core::entity::auth_context::AuthContext;
use ca_core::entity::signup_process::{Error as SignupError, Id as SignupId, SignupStateEnum};
use ca_core::entity::user::{Email, Id as UserId};
use ca_core::gateway::database::signup_process::{GetError, Record, SaveError};
use ca_core::gateway::database::user::SaveError as UserSaveError;
use ca_core::usecase::command::{Command, Reply, Step};
use ca_core::usecase::signup_process::complete::{
    is_completion_expired, Complete, Error, Request, COMPLETION_WINDOW_SECS,
};
use ca_core::usecase::validation::Field;
use ca_core::usecase::Usecase;
use ca_core::value_object::Role;
use uuid::Uuid;
use ca_core::value_object::Timestamp;

const TEST_EMAIL: &str = "test@email.com";
const TEST_UUID: &str = "9dcccf0f-a1ff-49fb-a238-cd9d88502391";
const TEST_USERNAME: &str = "test_username";
const TEST_PASSWORD: &str = "test_password";

fn signup_id() -> SignupId {
    SignupId::new(Uuid::parse_str(TEST_UUID).unwrap().as_u128())
}

fn now() -> Timestamp {
    let now = chrono::Utc::now();
    Timestamp { secs: now.timestamp(), nanos: now.timestamp_subsec_nanos() }
}

fn ts(secs: i64, nanos: u32) -> Timestamp {
    Timestamp { secs, nanos }
}

fn email_verified_record(entered_at: Timestamp) -> Record {
    Record {
        id: signup_id(),
        state: SignupStateEnum::EmailVerified { email: Email::new(TEST_EMAIL) },
        entered_at,
    }
}

fn request() -> Request {
    Request {
        id: signup_id(),
        username: TEST_USERNAME.to_string(),
        password: TEST_PASSWORD.to_string(),
    }
}

fn run<U: Usecase>(usecase: &U, req: U::Request, replies: Vec<Reply>) -> (
    Vec<Command>,
    Result<U::Response, U::Error>,
) {
    let (mut state, mut step) = usecase.start(req);
    let mut commands = Vec::new();
    let mut replies = replies.into_iter();
    loop {
        match step {
            Step::Finish(result) => {
                assert_eq!(usecase.awaited(&state), None);
                assert!(replies.next().is_none(), "a scripted reply was not used");
                return (commands, result);
            },
            Step::Run(command) => {
                let reply = replies.next().expect("the use case asked for an unscripted call");
                assert_eq!(usecase.awaited(&state), Some(command.reply_kind()));
                assert_eq!(usecase.awaited(&state), Some(reply.kind()));
                commands.push(command);
                let (next_state, next_step) = usecase.resume(state, reply);
                state = next_state;
                step = next_step;
            },
        }
    }
}

#[test]
fn test_complete_success() {
    let (commands, result) = run(
        &Complete::new(),
        request(),
        vec![
            Reply::TransactionBegun,
            Reply::LatestSignupState(Ok(email_verified_record(now()))),
            Reply::UserSaved(Ok(())),
            Reply::SignupStateSaved(Ok(())),
            Reply::TransactionCommitted(Ok(())),
        ],
    );
    let user = result.unwrap().record.user;
    assert_eq!(user.id(), UserId::new(signup_id().as_u128()));
    assert_eq!(*user.role(), Role::User);
    assert_eq!(user.email().as_str(), TEST_EMAIL);
    assert_eq!(user.username().as_str(), TEST_USERNAME);
    assert_eq!(user.password().as_str(), TEST_PASSWORD);
    match &commands[2] {
        Command::SaveUser { record } => assert_eq!(record.user.id(), user.id()),
        other => panic!("expected a user save, got {:?}", other),
    }
    match &commands[3] {
        Command::SaveLatestSignupState { record, in_transaction: false } => {
            assert!(matches!(&record.state, SignupStateEnum::Completed { email, username, .. }
                if email.as_str() == TEST_EMAIL && username.as_str() == TEST_USERNAME));
        },
        other => panic!("expected a process save, got {:?}", other),
    }
    assert!(matches!(commands[4], Command::CommitTransaction));
}

#[test]
fn test_complete_fail_request_validation() {
    let (commands, result) = run(
        &Complete::new(),
        Request { id: signup_id(), username: String::new(), password: "1234".to_string() },
        vec![],
    );
    assert!(commands.is_empty());
    match result.unwrap_err() {
        Error::Validation(inv) => {
            let fields: Vec<Field> = inv.violations.iter().map(|v| v.field).collect();
            assert_eq!(fields, vec![Field::Username, Field::Password]);
        },
        other => panic!("expected a validation error, got {:?}", other),
    }
}

#[test]
fn test_complete_fail_get_latest_state_connection() {
    let (_, result) = run(
        &Complete::new(),
        request(),
        vec![Reply::TransactionBegun, Reply::LatestSignupState(Err(GetError::Connection))],
    );
    assert_eq!(result.unwrap_err(), Error::Repo);
}

#[test]
fn test_complete_fail_get_latest_state_not_found() {
    let (_, result) = run(
        &Complete::new(),
        request(),
        vec![Reply::TransactionBegun, Reply::LatestSignupState(Err(GetError::NotFound))],
    );
    assert_eq!(result.unwrap_err(), Error::NotFound(signup_id()));
}

#[test]
fn test_complete_fail_get_latest_state_incorrect_state() {
    let (_, result) = run(
        &Complete::new(),
        request(),
        vec![
            Reply::TransactionBegun,
            Reply::LatestSignupState(Ok(Record {
                id: signup_id(),
                state: SignupStateEnum::VerificationEmailSent { email: Email::new(TEST_EMAIL) },
                entered_at: now(),
            })),
        ],
    );
    assert_eq!(result.unwrap_err(), Error::IncorrectState(signup_id()));
}

#[test]
fn test_complete_fail_completion_time_expired() {
    let (commands, result) = run(
        &Complete::new(),
        request(),
        vec![
            Reply::TransactionBegun,
            Reply::LatestSignupState(Ok(email_verified_record(ts(now().secs - 2 * COMPLETION_WINDOW_SECS, 0)))),
            Reply::SignupStateSaved(Ok(())),
            Reply::TransactionCommitted(Ok(())),
        ],
    );
    assert_eq!(result.unwrap_err(), Error::CompletionTimedOut);
    match &commands[2] {
        Command::SaveLatestSignupState { record, .. } => match &record.state {
            SignupStateEnum::Failed { previous_state, error } => {
                assert_eq!(*error, SignupError::CompletionTimedOut);
                assert!(matches!(&**previous_state, SignupStateEnum::EmailVerified { .. }));
            },
            other => panic!("expected a failed state, got {:?}", other),
        },
        other => panic!("expected a save, got {:?}", other),
    }
}

#[test]
fn test_complete_fail_user_repo_connection() {
    let (_, result) = run(
        &Complete::new(),
        request(),
        vec![
            Reply::TransactionBegun,
            Reply::LatestSignupState(Ok(email_verified_record(now()))),
            Reply::UserSaved(Err(UserSaveError::Connection)),
        ],
    );
    assert_eq!(result.unwrap_err(), Error::Repo);
}

#[test]
fn test_complete_fail_save_latest_state_connection() {
    let (_, result) = run(
        &Complete::new(),
        request(),
        vec![
            Reply::TransactionBegun,
            Reply::LatestSignupState(Ok(email_verified_record(now()))),
            Reply::UserSaved(Ok(())),
            Reply::SignupStateSaved(Err(SaveError::Connection)),
        ],
    );
    assert_eq!(result.unwrap_err(), Error::Repo);
}

#[test]
fn completion_window_is_one_day() {
    assert_eq!(COMPLETION_WINDOW_SECS, 86_400);
    let day = COMPLETION_WINDOW_SECS;
    // exactly one day is not yet past the window
    assert!(!is_completion_expired(ts(1_000 + day, 5), ts(1_000, 5)));
    // one nanosecond more is
    assert!(is_completion_expired(ts(1_000 + day, 6), ts(1_000, 5)));
    assert!(is_completion_expired(ts(1_001 + day, 0), ts(1_000, 999_999_999)));
    assert!(!is_completion_expired(ts(1_000 + day, 0), ts(1_000, 999_999_999)));
    assert!(!is_completion_expired(ts(i64::MIN, 0), ts(i64::MAX, 0)));
    assert!(is_completion_expired(ts(i64::MAX, 0), ts(i64::MIN, 0)));
}

#[test]
fn completion_window_from_inside_a_leap_second() {
    let day = COMPLETION_WINDOW_SECS;
    // 23:59:60.5 moved back one day is 00:00:00.5 of the day after, one day earlier
    let now = ts(1_000 + day, 1_500_000_000);
    assert!(is_completion_expired(now, ts(1_001, 499_999_999)));
    assert!(!is_completion_expired(now, ts(1_001, 500_000_000)));
}

#[test]
fn complete_authorize_anyone() {
    let req = request();
    assert!(Complete::new().authorize(&req, Some(AuthContext::new(UserId::new(0), Role::Admin))).is_ok());
    assert!(Complete::new().authorize(&req, Some(AuthContext::new(UserId::new(0), Role::User))).is_ok());
    assert!(Complete::new().authorize(&req, None).is_ok());
}
