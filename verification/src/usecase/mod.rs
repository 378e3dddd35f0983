pub mod command;
pub mod signup_process;
pub mod user;
pub mod validation;

use crate::entity::auth_context::{AuthContext, AuthError};
use crate::entity::auth_strategy::AuthStrategy;
use crate::entity::user::Id as UserId;
use crate::value_object::id::lemma_id_view_injective;
use crate::value_object::Role;
use command::{awaited_after, Reply, ReplyKind, Step};
use vstd::prelude::*;

verus! {

/// Whether `authorization` is defined: under `AdminAndOwnerOnly`, a request
/// by a non-admin must name its owner.
pub open spec fn authorization_defined(
    strategy: AuthStrategy,
    owner: Option<UserId>,
    auth_context: Option<AuthContext>,
) -> bool {
    match auth_context {
        Some(ctx) => !(strategy == AuthStrategy::AdminAndOwnerOnly && ctx.role != Role::Admin
            && owner is None),
        None => true,
    }
}

/// The authorization decision: `AdminOnly` admits admins, `AdminAndOwnerOnly`
/// admits admins and the owner of what the request is about, `Public` admits
/// everyone, and a request without an auth context is refused unless public.
pub open spec fn authorization(
    strategy: AuthStrategy,
    owner: Option<UserId>,
    auth_context: Option<AuthContext>,
) -> Result<(), AuthError> {
    match strategy {
        AuthStrategy::AdminOnly => match auth_context {
            Some(ctx) => if ctx.role == Role::Admin {
                Ok(())
            } else {
                Err(AuthError::Unauthorized)
            },
            None => Err(AuthError::Unauthorized),
        },
        AuthStrategy::AdminAndOwnerOnly => match auth_context {
            Some(ctx) => if ctx.role == Role::Admin || owner == Some(ctx.user_id) {
                Ok(())
            } else {
                Err(AuthError::Unauthorized)
            },
            None => Err(AuthError::Unauthorized),
        },
        AuthStrategy::Public => Ok(()),
    }
}

/// Whether `authorization` is defined for these inputs.
pub fn is_authorization_defined(
    strategy: AuthStrategy,
    owner: &Option<UserId>,
    auth_context: &Option<AuthContext>,
) -> (defined: bool)
    ensures
        defined == authorization_defined(strategy, *owner, *auth_context),
{
    match auth_context {
        Some(ctx) => !(strategy == AuthStrategy::AdminAndOwnerOnly && !ctx.is_admin()
            && owner.is_none()),
        None => true,
    }
}

/// An admin is authorized for every use case and request.
pub proof fn lemma_admin_is_always_authorized(
    strategy: AuthStrategy,
    owner: Option<UserId>,
    auth_context: AuthContext,
)
    requires
        auth_context.role == Role::Admin,
    ensures
        authorization_defined(strategy, owner, Some(auth_context)),
        authorization(strategy, owner, Some(auth_context)) is Ok,
{
}

/// A request without an auth context is authorized exactly for public use
/// cases.
pub proof fn lemma_anonymous_only_public(strategy: AuthStrategy, owner: Option<UserId>)
    ensures
        authorization_defined(strategy, owner, None),
        authorization(strategy, owner, None) is Ok <==> strategy == AuthStrategy::Public,
{
}

/// A plain user is authorized for an owner-only use case exactly when the
/// request is about that user, and never for an admin-only one.
pub proof fn lemma_user_authorization(owner: Option<UserId>, auth_context: AuthContext)
    requires
        auth_context.role == Role::User,
    ensures
        authorization(AuthStrategy::AdminOnly, owner, Some(auth_context)) is Err,
        owner is Some ==> (authorization(
            AuthStrategy::AdminAndOwnerOnly,
            owner,
            Some(auth_context),
        ) is Ok <==> owner == Some(auth_context.user_id)),
        authorization(AuthStrategy::Public, owner, Some(auth_context)) is Ok,
{
}

/// A use case: its authorization and its run as a step machine. A run starts
/// with `start`; while the step is `Run(command)`, the caller makes the call
/// and hands its reply to `resume`; the run ends at `Finish`.
pub trait Usecase: Sized {
    type Request;
    type Response;
    type Error;
    type State;

    /// Who may run this use case.
    spec fn strategy(&self) -> AuthStrategy;

    /// The user that a request is about, if the use case has owners.
    spec fn owner_of(&self, req: Self::Request) -> Option<UserId>;

    /// The kind of reply the run waits for in `state`, if any.
    spec fn awaits(&self, state: Self::State) -> Option<ReplyKind>;

    fn new() -> Self;

    fn auth_strategy(&self) -> (strategy: AuthStrategy)
        ensures
            strategy == self.strategy(),
    ;

    fn extract_owner(&self, req: &Self::Request) -> (owner: Option<UserId>)
        ensures
            owner == self.owner_of(*req),
    ;

    /// Decides whether the holder of `auth_context` may make the request.
    fn authorize(&self, req: &Self::Request, auth_context: Option<AuthContext>) -> (r: Result<
        (),
        AuthError,
    >)
        requires
            authorization_defined(self.strategy(), self.owner_of(*req), auth_context),
        ensures
            r == authorization(self.strategy(), self.owner_of(*req), auth_context),
    {
        match self.auth_strategy() {
            AuthStrategy::AdminOnly => match auth_context {
                Some(auth_context) => {
                    if auth_context.is_admin() {
                        Ok(())
                    } else {
                        Err(AuthError::Unauthorized)
                    }
                },
                None => Err(AuthError::Unauthorized),
            },
            AuthStrategy::AdminAndOwnerOnly => match auth_context {
                Some(auth_context) => {
                    if auth_context.is_admin() {
                        Ok(())
                    } else {
                        match self.extract_owner(req) {
                            Some(owner) => {
                                proof {
                                    lemma_id_view_injective(owner, auth_context.user_id);
                                }
                                if owner.same_as(&auth_context.user_id) {
                                    Ok(())
                                } else {
                                    Err(AuthError::Unauthorized)
                                }
                            },
                            None => {
                                proof {
                                    assert(false);
                                }
                                Err(AuthError::Unauthorized)
                            },
                        }
                    }
                },
                None => Err(AuthError::Unauthorized),
            },
            AuthStrategy::Public => Ok(()),
        }
    }

    /// The kind of reply the run waits for in `state`, if any.
    fn awaited(&self, state: &Self::State) -> (kind: Option<ReplyKind>)
        ensures
            kind == self.awaits(*state),
    ;

    /// The first step of a run on `req`.
    fn start(&self, req: Self::Request) -> (r: (Self::State, Step<Self::Response, Self::Error>))
        ensures
            self.awaits(r.0) == awaited_after(r.1),
    ;

    /// The next step of a run, given the reply to the command it asked for.
    fn resume(&self, state: Self::State, reply: Reply) -> (r: (
        Self::State,
        Step<Self::Response, Self::Error>,
    ))
        requires
            self.awaits(state) == Some(reply.spec_kind()),
        ensures
            self.awaits(r.0) == awaited_after(r.1),
    ;
}

} // verus!
