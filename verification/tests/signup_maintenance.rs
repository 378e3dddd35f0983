use ca_core::entity::auth_context::{AuthContext, AuthError};
use ca_core::entity::signup_process::{Error as SignupError, Id as SignupId, SignupStateEnum};
use ca_core::entity::user::{Email, Id as UserId};
use ca_core::gateway::database::signup_process::{GetError, Record, SaveError};
use ca_core::gateway::database::token::ExtendError;
use ca_core::gateway::repository::signup_process::{
    GetError as RepoGetError, Record as RepoRecord, SaveError as RepoSaveError,
};
use ca_core::usecase::command::{Command, Reply, Step};
use ca_core::usecase::signup_process::{
    completion_timed_out, delete, extend_completion_time, extend_verification_time, get_state_chain,
};
use ca_core::usecase::Usecase;
use ca_core::value_object::Role;
use std::sync::Arc;
use uuid::Uuid;
use ca_core::value_object::Timestamp;

const TEST_EMAIL: &str = "test@email.com";
const TEST_UUID: &str = "9dcccf0f-a1ff-49fb-a238-cd9d88502391";

fn signup_id() -> SignupId {
    SignupId::new(Uuid::parse_str(TEST_UUID).unwrap().as_u128())
}

fn email() -> Email {
    Email::new(TEST_EMAIL)
}

fn failed(previous: SignupStateEnum, error: SignupError) -> SignupStateEnum {
    SignupStateEnum::Failed { previous_state: Arc::new(previous), error }
}

fn record(state: SignupStateEnum) -> Record {
    Record { id: signup_id(), state, entered_at: Timestamp { secs: 1_700_000_000, nanos: 0 } }
}

fn stored(state: SignupStateEnum) -> RepoRecord {
    RepoRecord { id: signup_id(), state, entered_at: Timestamp { secs: 1_700_000_000, nanos: 0 } }
}

fn run<U: Usecase>(usecase: &U, req: U::Request, replies: Vec<Reply>) -> (
    Vec<Command>,
    Result<U::Response, U::Error>,
) {
    let (mut state, mut step) = usecase.start(req);
    let mut commands = Vec::new();
    let mut replies = replies.into_iter();
    loop {
        match step {
            Step::Finish(result) => {
                assert_eq!(usecase.awaited(&state), None);
                assert!(replies.next().is_none(), "a scripted reply was not used");
                return (commands, result);
            },
            Step::Run(command) => {
                let reply = replies.next().expect("the use case asked for an unscripted call");
                assert_eq!(usecase.awaited(&state), Some(command.reply_kind()));
                assert_eq!(usecase.awaited(&state), Some(reply.kind()));
                commands.push(command);
                let (next_state, next_step) = usecase.resume(state, reply);
                state = next_state;
                step = next_step;
            },
        }
    }
}

fn admin() -> AuthContext {
    AuthContext::new(UserId::new(0), Role::Admin)
}

fn user() -> AuthContext {
    AuthContext::new(UserId::new(0), Role::User)
}

#[test]
fn test_extend_completion_time_success() {
    let (commands, result) = run(
        &extend_completion_time::ExtendCompletionTime::new(),
        extend_completion_time::Request { id: signup_id() },
        vec![
            Reply::LatestSignupState(Ok(record(failed(
                SignupStateEnum::EmailVerified { email: email() },
                SignupError::CompletionTimedOut,
            )))),
            Reply::SignupStateSaved(Ok(())),
        ],
    );
    assert_eq!(result.unwrap().id, signup_id());
    match &commands[1] {
        Command::SaveLatestSignupState { record, in_transaction: false } => {
            assert_eq!(record.id, signup_id());
            assert!(matches!(&record.state, SignupStateEnum::EmailVerified { email } if email.as_str() == TEST_EMAIL));
        },
        other => panic!("expected a save, got {:?}", other),
    }
}

#[test]
fn test_extend_completion_time_fail_get_latest_state_connection() {
    let (_, result) = run(
        &extend_completion_time::ExtendCompletionTime::new(),
        extend_completion_time::Request { id: signup_id() },
        vec![Reply::LatestSignupState(Err(GetError::Connection))],
    );
    assert_eq!(result.unwrap_err(), extend_completion_time::Error::Repo);
}

#[test]
fn test_extend_completion_time_fail_get_latest_state_not_found() {
    let (_, result) = run(
        &extend_completion_time::ExtendCompletionTime::new(),
        extend_completion_time::Request { id: signup_id() },
        vec![Reply::LatestSignupState(Err(GetError::NotFound))],
    );
    assert_eq!(result.unwrap_err(), extend_completion_time::Error::NotFound(signup_id()));
}

#[test]
fn test_extend_completion_time_fail_incorrect_state() {
    let (_, result) = run(
        &extend_completion_time::ExtendCompletionTime::new(),
        extend_completion_time::Request { id: signup_id() },
        vec![Reply::LatestSignupState(Ok(record(failed(
            SignupStateEnum::VerificationEmailSent { email: email() },
            SignupError::VerificationTimedOut,
        ))))],
    );
    assert_eq!(result.unwrap_err(), extend_completion_time::Error::IncorrectState(signup_id()));
}

#[test]
fn test_extend_completion_time_fail_save_latest_state_connection() {
    let (_, result) = run(
        &extend_completion_time::ExtendCompletionTime::new(),
        extend_completion_time::Request { id: signup_id() },
        vec![
            Reply::LatestSignupState(Ok(record(failed(
                SignupStateEnum::EmailVerified { email: email() },
                SignupError::CompletionTimedOut,
            )))),
            Reply::SignupStateSaved(Err(SaveError::Connection)),
        ],
    );
    assert_eq!(result.unwrap_err(), extend_completion_time::Error::Repo);
}

#[test]
fn extend_completion_time_authorization() {
    let req = extend_completion_time::Request { id: signup_id() };
    let usecase = extend_completion_time::ExtendCompletionTime::new();
    assert!(usecase.authorize(&req, Some(admin())).is_ok());
    assert_eq!(usecase.authorize(&req, Some(user())), Err(AuthError::Unauthorized));
    assert_eq!(usecase.authorize(&req, None), Err(AuthError::Unauthorized));
}

fn verification_failed_record() -> Record {
    record(failed(
        SignupStateEnum::VerificationEmailSent { email: email() },
        SignupError::VerificationTimedOut,
    ))
}

#[test]
fn test_extend_verification_time_success() {
    let (commands, result) = run(
        &extend_verification_time::ExtendVerificationTime::new(),
        extend_verification_time::Request { id: signup_id() },
        vec![
            Reply::LatestSignupState(Ok(verification_failed_record())),
            Reply::TokenExtended(Ok(())),
            Reply::SignupStateSaved(Ok(())),
        ],
    );
    assert_eq!(result.unwrap().id, signup_id());
    assert!(matches!(&commands[1], Command::ExtendToken { email } if email == TEST_EMAIL));
    match &commands[2] {
        Command::SaveLatestSignupState { record, .. } => {
            assert!(matches!(&record.state, SignupStateEnum::VerificationEmailSent { .. }));
        },
        other => panic!("expected a save, got {:?}", other),
    }
}

#[test]
fn test_extend_verification_time_fail_get_latest_state_connection() {
    let (_, result) = run(
        &extend_verification_time::ExtendVerificationTime::new(),
        extend_verification_time::Request { id: signup_id() },
        vec![Reply::LatestSignupState(Err(GetError::Connection))],
    );
    assert_eq!(result.unwrap_err(), extend_verification_time::Error::Repo);
}

#[test]
fn test_extend_verification_time_fail_get_latest_state_not_found() {
    let (_, result) = run(
        &extend_verification_time::ExtendVerificationTime::new(),
        extend_verification_time::Request { id: signup_id() },
        vec![Reply::LatestSignupState(Err(GetError::NotFound))],
    );
    assert_eq!(result.unwrap_err(), extend_verification_time::Error::NotFound(signup_id()));
}

#[test]
fn test_extend_verification_time_fails_incorrect_state() {
    let (_, result) = run(
        &extend_verification_time::ExtendVerificationTime::new(),
        extend_verification_time::Request { id: signup_id() },
        vec![Reply::LatestSignupState(Ok(record(SignupStateEnum::VerificationEmailSent {
            email: email(),
        })))],
    );
    assert_eq!(result.unwrap_err(), extend_verification_time::Error::IncorrectState(signup_id()));
}

#[test]
fn test_extend_verification_time_fail_token_repo_extend() {
    let (_, result) = run(
        &extend_verification_time::ExtendVerificationTime::new(),
        extend_verification_time::Request { id: signup_id() },
        vec![
            Reply::LatestSignupState(Ok(verification_failed_record())),
            Reply::TokenExtended(Err(ExtendError::Connection)),
        ],
    );
    assert_eq!(
        result.unwrap_err(),
        extend_verification_time::Error::TokenRepoError(ExtendError::Connection)
    );
}

#[test]
fn test_extend_verification_time_fail_save_latest_state_connection() {
    let (_, result) = run(
        &extend_verification_time::ExtendVerificationTime::new(),
        extend_verification_time::Request { id: signup_id() },
        vec![
            Reply::LatestSignupState(Ok(verification_failed_record())),
            Reply::TokenExtended(Ok(())),
            Reply::SignupStateSaved(Err(SaveError::Connection)),
        ],
    );
    assert_eq!(result.unwrap_err(), extend_verification_time::Error::Repo);
}

#[test]
fn extend_verification_time_authorization() {
    let req = extend_verification_time::Request { id: signup_id() };
    let usecase = extend_verification_time::ExtendVerificationTime::new();
    assert!(usecase.authorize(&req, Some(admin())).is_ok());
    assert_eq!(usecase.authorize(&req, Some(user())), Err(AuthError::Unauthorized));
    assert_eq!(usecase.authorize(&req, None), Err(AuthError::Unauthorized));
}

#[test]
fn test_get_state_chain_success() {
    let chain = vec![
        record(SignupStateEnum::Initialized { email: email() }),
        record(SignupStateEnum::VerificationEmailSent { email: email() }),
        record(SignupStateEnum::EmailVerified { email: email() }),
    ];
    let (commands, result) = run(
        &get_state_chain::GetStateChain::new(),
        get_state_chain::Request { id: signup_id() },
        vec![Reply::SignupStateChain(Ok(chain))],
    );
    assert!(matches!(&commands[0], Command::GetSignupStateChain { id } if *id == signup_id()));
    let state_chain = result.unwrap().state_chain;
    assert_eq!(state_chain.len(), 3);
    assert!(matches!(state_chain[0].state, SignupStateEnum::Initialized { .. }));
    assert!(matches!(state_chain[1].state, SignupStateEnum::VerificationEmailSent { .. }));
    assert!(matches!(state_chain[2].state, SignupStateEnum::EmailVerified { .. }));
}

#[test]
fn test_get_state_chain_fail_connection() {
    let (_, result) = run(
        &get_state_chain::GetStateChain::new(),
        get_state_chain::Request { id: signup_id() },
        vec![Reply::SignupStateChain(Err(GetError::Connection))],
    );
    assert_eq!(result.unwrap_err(), get_state_chain::Error::Repo);
}

#[test]
fn test_get_state_chain_fail_not_found() {
    let (_, result) = run(
        &get_state_chain::GetStateChain::new(),
        get_state_chain::Request { id: signup_id() },
        vec![Reply::SignupStateChain(Err(GetError::NotFound))],
    );
    assert_eq!(result.unwrap_err(), get_state_chain::Error::NotFound(signup_id()));
}

#[test]
fn get_state_chain_authorization() {
    let req = get_state_chain::Request { id: signup_id() };
    let usecase = get_state_chain::GetStateChain::new();
    assert!(usecase.authorize(&req, Some(admin())).is_ok());
    assert_eq!(usecase.authorize(&req, Some(user())), Err(AuthError::Unauthorized));
    assert_eq!(usecase.authorize(&req, None), Err(AuthError::Unauthorized));
}

#[test]
fn completion_timed_out_marks_verified_process() {
    let (commands, result) = run(
        &completion_timed_out::CompletionTimedOut::new(),
        completion_timed_out::Request { id: signup_id() },
        vec![
            Reply::StoredSignupState(Ok(stored(SignupStateEnum::EmailVerified { email: email() }))),
            Reply::StoredSignupStateSaved(Ok(())),
        ],
    );
    assert_eq!(result.unwrap().id, signup_id());
    match &commands[1] {
        Command::SaveStoredSignupState { record } => match &record.state {
            SignupStateEnum::Failed { previous_state, error } => {
                assert_eq!(*error, SignupError::CompletionTimedOut);
                assert!(matches!(&**previous_state, SignupStateEnum::EmailVerified { .. }));
            },
            other => panic!("expected a failed state, got {:?}", other),
        },
        other => panic!("expected a save, got {:?}", other),
    }
}

#[test]
fn completion_timed_out_other_state_is_not_found() {
    let (_, result) = run(
        &completion_timed_out::CompletionTimedOut::new(),
        completion_timed_out::Request { id: signup_id() },
        vec![Reply::StoredSignupState(Ok(stored(SignupStateEnum::Initialized { email: email() })))],
    );
    assert_eq!(result.unwrap_err(), completion_timed_out::Error::NotFound(signup_id()));
}

#[test]
fn completion_timed_out_failed_store_is_not_found() {
    let (_, result) = run(
        &completion_timed_out::CompletionTimedOut::new(),
        completion_timed_out::Request { id: signup_id() },
        vec![
            Reply::StoredSignupState(Ok(stored(SignupStateEnum::EmailVerified { email: email() }))),
            Reply::StoredSignupStateSaved(Err(RepoSaveError::Connection)),
        ],
    );
    assert_eq!(result.unwrap_err(), completion_timed_out::Error::NotFound(signup_id()));
}

#[test]
fn completion_timed_out_connection_is_repo() {
    let (_, result) = run(
        &completion_timed_out::CompletionTimedOut::new(),
        completion_timed_out::Request { id: signup_id() },
        vec![Reply::StoredSignupState(Err(RepoGetError::Connection))],
    );
    assert_eq!(result.unwrap_err(), completion_timed_out::Error::Repo);
}

#[test]
fn delete_failed_verification_schedules_deletion() {
    for previous in [
        SignupStateEnum::VerificationEmailSent { email: email() },
        SignupStateEnum::EmailVerified { email: email() },
    ] {
        let (commands, result) = run(
            &delete::Delete::new(),
            delete::Request { id: signup_id() },
            vec![
                Reply::StoredSignupState(Ok(stored(failed(previous, SignupError::VerificationTimedOut)))),
                Reply::StoredSignupStateSaved(Ok(())),
            ],
        );
        assert_eq!(result.unwrap().id, signup_id());
        assert!(matches!(&commands[1], Command::SaveStoredSignupState { record }
            if matches!(record.state, SignupStateEnum::ForDeletion) && record.id == signup_id()));
    }
}

#[test]
fn delete_refuses_other_states() {
    for state in [
        SignupStateEnum::Initialized { email: email() },
        failed(SignupStateEnum::Initialized { email: email() }, SignupError::TokenGenrationFailed),
        SignupStateEnum::ForDeletion,
    ] {
        let (commands, result) = run(
            &delete::Delete::new(),
            delete::Request { id: signup_id() },
            vec![Reply::StoredSignupState(Ok(stored(state)))],
        );
        assert_eq!(commands.len(), 1);
        assert_eq!(result.unwrap_err(), delete::Error::NotFound(signup_id()));
    }
}

#[test]
fn delete_is_transactional_and_admin_only() {
    assert!(delete::Delete::is_transactional());
    let req = delete::Request { id: signup_id() };
    assert!(delete::Delete::new().authorize(&req, Some(admin())).is_ok());
    assert_eq!(delete::Delete::new().authorize(&req, None), Err(AuthError::Unauthorized));
}
