use crate::entity::user::Id as UserId;
use crate::value_object::Role;
use vstd::prelude::*;

verus! {

/// Who is making a request: the user's id and role.
#[derive(Clone, Copy, Debug)]
pub struct AuthContext {
    pub user_id: UserId,
    pub role: Role,
}

impl AuthContext {
    pub fn new(user_id: UserId, role: Role) -> (ctx: Self)
        ensures
            ctx.user_id == user_id,
            ctx.role == role,
    {
        AuthContext { user_id, role }
    }

    pub fn user_id(&self) -> (id: &UserId)
        ensures
            *id == self.user_id,
    {
        &self.user_id
    }

    pub fn role(&self) -> (role: &Role)
        ensures
            *role == self.role,
    {
        &self.role
    }

    pub fn is_admin(&self) -> (admin: bool)
        ensures
            admin == (self.role == Role::Admin),
    {
        self.role == Role::Admin
    }
}

/// The refusal of a request by authorization.
#[derive(Clone, Copy, Debug, PartialEq, Eq, Structural)]
pub enum AuthError {
    Unauthorized,
}

} // verus!
