//! What a use case asks of the gateways, and what they answer.
use crate::entity::auth_context::AuthContext;
use crate::entity::signup_process::Id as SignupId;
use crate::entity::user::{Id as UserId, UserName};
use crate::gateway::database::identifier::NewIdError;
use crate::gateway::database::signup_process as signup_db;
use crate::gateway::database::token as token_db;
use crate::gateway::database::user as user_db;
use crate::gateway::repository::signup_process as signup_repo;
use crate::gateway::service::email::{EmailAddress, EmailServiceError};
use crate::value_object::Timestamp;
use vstd::prelude::*;

verus! {

/// A call that a use case asks the caller to make on a gateway. Calls marked
/// `in_transaction` run inside the transaction that the use case began.
#[derive(Clone, Debug)]
#[allow(inconsistent_fields)]
pub enum Command {
    NewSignupId,
    BeginTransaction,
    CommitTransaction,
    GetLatestSignupState { id: SignupId, in_transaction: bool },
    SaveLatestSignupState { record: signup_db::Record, in_transaction: bool },
    GetSignupStateChain { id: SignupId },
    GenerateToken { email: String },
    VerifyToken { email: String, token: String, in_transaction: bool },
    ExtendToken { email: String },
    SendVerificationEmail { to: EmailAddress, token: String },
    SaveUser { record: user_db::Record },
    GetUser { id: UserId },
    GetUserByUsername { username: UserName },
    GetAllUsers,
    DeleteUser { id: UserId },
    PackAuth { auth: AuthContext },
    /// Through the store-only signup repository.
    GetStoredSignupState { id: SignupId },
    /// Through the store-only signup repository.
    SaveStoredSignupState { record: signup_repo::Record },
}

/// What a gateway answered to a `Command`.
#[derive(Debug)]
pub enum Reply {
    NewSignupId(Result<SignupId, NewIdError>),
    TransactionBegun,
    TransactionCommitted(Result<(), ()>),
    LatestSignupState(Result<signup_db::Record, signup_db::GetError>),
    SignupStateSaved(Result<(), signup_db::SaveError>),
    SignupStateChain(Result<Vec<signup_db::Record>, signup_db::GetError>),
    TokenGenerated(Result<token_db::Record, token_db::GenError>),
    TokenVerified(Result<(), token_db::VerifyError>),
    TokenExtended(Result<(), token_db::ExtendError>),
    VerificationEmailSent(Result<(), EmailServiceError>),
    UserSaved(Result<(), user_db::SaveError>),
    UserFetched(Result<user_db::Record, user_db::GetError>),
    AllUsersFetched(Result<Vec<user_db::Record>, user_db::GetAllError>),
    UserDeleted(Result<(), user_db::DeleteError>),
    AuthPacked(String),
    StoredSignupState(Result<signup_repo::Record, signup_repo::GetError>),
    StoredSignupStateSaved(Result<(), signup_repo::SaveError>),
}

/// The kinds of `Reply`, one for each variant.
#[derive(Clone, Copy, Debug, PartialEq, Eq, Structural)]
pub enum ReplyKind {
    NewSignupId,
    TransactionBegun,
    TransactionCommitted,
    LatestSignupState,
    SignupStateSaved,
    SignupStateChain,
    TokenGenerated,
    TokenVerified,
    TokenExtended,
    VerificationEmailSent,
    UserSaved,
    UserFetched,
    AllUsersFetched,
    UserDeleted,
    AuthPacked,
    StoredSignupState,
    StoredSignupStateSaved,
}

impl Command {
    /// The kind of reply that answers this command.
    pub open spec fn answered_by(self) -> ReplyKind {
        match self {
            Command::NewSignupId => ReplyKind::NewSignupId,
            Command::BeginTransaction => ReplyKind::TransactionBegun,
            Command::CommitTransaction => ReplyKind::TransactionCommitted,
            Command::GetLatestSignupState { .. } => ReplyKind::LatestSignupState,
            Command::SaveLatestSignupState { .. } => ReplyKind::SignupStateSaved,
            Command::GetSignupStateChain { .. } => ReplyKind::SignupStateChain,
            Command::GenerateToken { .. } => ReplyKind::TokenGenerated,
            Command::VerifyToken { .. } => ReplyKind::TokenVerified,
            Command::ExtendToken { .. } => ReplyKind::TokenExtended,
            Command::SendVerificationEmail { .. } => ReplyKind::VerificationEmailSent,
            Command::SaveUser { .. } => ReplyKind::UserSaved,
            Command::GetUser { .. } => ReplyKind::UserFetched,
            Command::GetUserByUsername { .. } => ReplyKind::UserFetched,
            Command::GetAllUsers => ReplyKind::AllUsersFetched,
            Command::DeleteUser { .. } => ReplyKind::UserDeleted,
            Command::PackAuth { .. } => ReplyKind::AuthPacked,
            Command::GetStoredSignupState { .. } => ReplyKind::StoredSignupState,
            Command::SaveStoredSignupState { .. } => ReplyKind::StoredSignupStateSaved,
        }
    }

    /// The kind of reply that answers this command.
    pub fn reply_kind(&self) -> (kind: ReplyKind)
        ensures
            kind == self.answered_by(),
    {
        match self {
            Command::NewSignupId => ReplyKind::NewSignupId,
            Command::BeginTransaction => ReplyKind::TransactionBegun,
            Command::CommitTransaction => ReplyKind::TransactionCommitted,
            Command::GetLatestSignupState { .. } => ReplyKind::LatestSignupState,
            Command::SaveLatestSignupState { .. } => ReplyKind::SignupStateSaved,
            Command::GetSignupStateChain { .. } => ReplyKind::SignupStateChain,
            Command::GenerateToken { .. } => ReplyKind::TokenGenerated,
            Command::VerifyToken { .. } => ReplyKind::TokenVerified,
            Command::ExtendToken { .. } => ReplyKind::TokenExtended,
            Command::SendVerificationEmail { .. } => ReplyKind::VerificationEmailSent,
            Command::SaveUser { .. } => ReplyKind::UserSaved,
            Command::GetUser { .. } => ReplyKind::UserFetched,
            Command::GetUserByUsername { .. } => ReplyKind::UserFetched,
            Command::GetAllUsers => ReplyKind::AllUsersFetched,
            Command::DeleteUser { .. } => ReplyKind::UserDeleted,
            Command::PackAuth { .. } => ReplyKind::AuthPacked,
            Command::GetStoredSignupState { .. } => ReplyKind::StoredSignupState,
            Command::SaveStoredSignupState { .. } => ReplyKind::StoredSignupStateSaved,
        }
    }
}

impl Reply {
    pub open spec fn spec_kind(self) -> ReplyKind {
        match self {
            Reply::NewSignupId(_) => ReplyKind::NewSignupId,
            Reply::TransactionBegun => ReplyKind::TransactionBegun,
            Reply::TransactionCommitted(_) => ReplyKind::TransactionCommitted,
            Reply::LatestSignupState(_) => ReplyKind::LatestSignupState,
            Reply::SignupStateSaved(_) => ReplyKind::SignupStateSaved,
            Reply::SignupStateChain(_) => ReplyKind::SignupStateChain,
            Reply::TokenGenerated(_) => ReplyKind::TokenGenerated,
            Reply::TokenVerified(_) => ReplyKind::TokenVerified,
            Reply::TokenExtended(_) => ReplyKind::TokenExtended,
            Reply::VerificationEmailSent(_) => ReplyKind::VerificationEmailSent,
            Reply::UserSaved(_) => ReplyKind::UserSaved,
            Reply::UserFetched(_) => ReplyKind::UserFetched,
            Reply::AllUsersFetched(_) => ReplyKind::AllUsersFetched,
            Reply::UserDeleted(_) => ReplyKind::UserDeleted,
            Reply::AuthPacked(_) => ReplyKind::AuthPacked,
            Reply::StoredSignupState(_) => ReplyKind::StoredSignupState,
            Reply::StoredSignupStateSaved(_) => ReplyKind::StoredSignupStateSaved,
        }
    }

    pub fn kind(&self) -> (kind: ReplyKind)
        ensures
            kind == self.spec_kind(),
    {
        match self {
            Reply::NewSignupId(_) => ReplyKind::NewSignupId,
            Reply::TransactionBegun => ReplyKind::TransactionBegun,
            Reply::TransactionCommitted(_) => ReplyKind::TransactionCommitted,
            Reply::LatestSignupState(_) => ReplyKind::LatestSignupState,
            Reply::SignupStateSaved(_) => ReplyKind::SignupStateSaved,
            Reply::SignupStateChain(_) => ReplyKind::SignupStateChain,
            Reply::TokenGenerated(_) => ReplyKind::TokenGenerated,
            Reply::TokenVerified(_) => ReplyKind::TokenVerified,
            Reply::TokenExtended(_) => ReplyKind::TokenExtended,
            Reply::VerificationEmailSent(_) => ReplyKind::VerificationEmailSent,
            Reply::UserSaved(_) => ReplyKind::UserSaved,
            Reply::UserFetched(_) => ReplyKind::UserFetched,
            Reply::AllUsersFetched(_) => ReplyKind::AllUsersFetched,
            Reply::UserDeleted(_) => ReplyKind::UserDeleted,
            Reply::AuthPacked(_) => ReplyKind::AuthPacked,
            Reply::StoredSignupState(_) => ReplyKind::StoredSignupState,
            Reply::StoredSignupStateSaved(_) => ReplyKind::StoredSignupStateSaved,
        }
    }
}

/// What a use case does next: run a gateway command and resume with its
/// reply, or finish with its result.
#[derive(Debug)]
pub enum Step<R, E> {
    Run(Command),
    Finish(Result<R, E>),
}

/// Whether a step stores, through the signup repository, the state `state`
/// of the process `id`.
pub open spec fn saves_signup_state<R, E>(
    step: Step<R, E>,
    id: SignupId,
    state: crate::entity::signup_process::SignupStateEnum,
    in_transaction: bool,
) -> bool {
    &&& step matches Step::Run(Command::SaveLatestSignupState { record, in_transaction: t })
    &&& record.id == id
    &&& record.state == state
    &&& t == in_transaction
}

/// The entry time of the signup process record that a step stores, if the
/// step stores one.
pub open spec fn saved_entry<R, E>(step: Step<R, E>) -> Option<Timestamp> {
    match step {
        Step::Run(Command::SaveLatestSignupState { record, .. }) => Some(record.entered_at),
        Step::Run(Command::SaveStoredSignupState { record }) => Some(record.entered_at),
        _ => None,
    }
}

/// Whether a step stores, through the store-only signup repository, the
/// state `state` of the process `id`.
pub open spec fn saves_stored_signup_state<R, E>(
    step: Step<R, E>,
    id: SignupId,
    state: crate::entity::signup_process::SignupStateEnum,
) -> bool {
    &&& step matches Step::Run(Command::SaveStoredSignupState { record })
    &&& record.id == id
    &&& record.state == state
}

/// The reply kind a use case waits for after a step: the kind that answers the
/// command it asked for, or none once it has finished.
pub open spec fn awaited_after<R, E>(step: Step<R, E>) -> Option<ReplyKind> {
    match step {
        Step::Run(command) => Some(command.answered_by()),
        Step::Finish(_) => None,
    }
}

} // verus!
