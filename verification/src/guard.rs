//! The role guard: what an authenticated caller may do.
//!
//! The guard is asked inside each privileged operation, after the auth gate has
//! run and before anything is changed. Required roles differ per action;
//! resources that belong to one account are guarded by ownership.

use vstd::prelude::*;
use crate::error::{status_of, ApiError};
use crate::gate::{AuthContext, Identity};
use crate::role::Role;
use crate::store::{found_or, StoreFailure};

verus! {

/// The actions that are open to some roles only.
#[derive(Clone, Copy, Debug, PartialEq, Eq, Structural)]
pub enum Action {
    /// Listing every account.
    ListUsers,
    /// Creating a project.
    CreateProject,
    /// Deleting a project.
    DeleteProject,
}

/// Whether a role may take an action: accounts are listed by admins only,
/// projects are created and deleted by teachers and admins.
pub open spec fn permits(action: Action, role: Role) -> bool {
    match action {
        Action::ListUsers => role == Role::Admin,
        Action::CreateProject => role == Role::Teacher || role == Role::Admin,
        Action::DeleteProject => role == Role::Teacher || role == Role::Admin,
    }
}

/// What the guard answers for a set of required roles.
pub open spec fn role_check(identity: Identity, required: Seq<Role>) -> Result<(), ApiError> {
    if required.contains(identity.role) {
        Ok(())
    } else {
        Err(ApiError::Forbidden)
    }
}

/// What the guard answers for a resource of one owner. A caller who is not
/// the owner is told that the resource does not exist.
pub open spec fn owner_check(identity: Identity, owner: int) -> Result<(), ApiError> {
    if identity.user_id == owner {
        Ok(())
    } else {
        Err(ApiError::NotFound)
    }
}

/// Whether the caller holds one of the required roles.
pub fn authorize(context: &AuthContext, required: &[Role]) -> (allowed: bool)
    ensures
        allowed == required@.contains(context.role),
{
    let mut i: usize = 0;
    while i < required.len()
        invariant
            i <= required@.len(),
            forall|k: int| 0 <= k < i ==> required@[k] != context.role,
        decreases required@.len() - i,
    {
        if required[i] == context.role {
            return true;
        }
        i += 1;
    }
    false
}

/// Lets the caller through if it holds one of the required roles, and
/// reports it as forbidden otherwise.
pub fn require_roles(context: &AuthContext, required: &[Role]) -> (outcome: Result<(), ApiError>)
    ensures
        outcome == role_check(context@, required@),
{
    if authorize(context, required) {
        Ok(())
    } else {
        Err(ApiError::Forbidden)
    }
}

/// Whether the caller is the account that owns a resource.
pub fn is_owner(context: &AuthContext, owner: i32) -> (same: bool)
    ensures
        same == (context.user_id == owner),
{
    context.user_id == owner
}

/// Lets the caller through if it owns the resource, and hides the resource
/// otherwise.
pub fn require_owner(context: &AuthContext, owner: i32) -> (outcome: Result<(), ApiError>)
    ensures
        outcome == owner_check(context@, owner as int),
{
    if is_owner(context, owner) {
        Ok(())
    } else {
        Err(ApiError::NotFound)
    }
}

/// What the guard answers for a resource that was looked up by its number,
/// given the owner that the store found for it: a resource that does not
/// exist and one that belongs to another account are told in the same way,
/// and a store that could not answer is an internal error.
pub open spec fn access_check(identity: Identity, owner: Result<Option<i32>, StoreFailure>) -> Result<
    (),
    ApiError,
> {
    match owner {
        Err(_) => Err(ApiError::Internal),
        Ok(None) => Err(ApiError::NotFound),
        Ok(Some(owner)) => owner_check(identity, owner as int),
    }
}

/// Lets the caller change a resource that was looked up by its number,
/// given the owner that the store found for it, if it found the resource.
pub fn require_access(context: &AuthContext, owner: Result<Option<i32>, StoreFailure>) -> (outcome:
    Result<(), ApiError>)
    ensures
        outcome == access_check(context@, owner),
{
    match found_or(owner, ApiError::NotFound) {
        Ok(owner) => require_owner(context, owner),
        Err(error) => Err(error),
    }
}

impl Action {
    /// The roles that may take this action.
    pub fn required_roles(&self) -> (roles: Vec<Role>)
        ensures
            forall|role: Role| roles@.contains(role) <==> permits(*self, role),
    {
        let roles = match self {
            Action::ListUsers => vec![Role::Admin],
            Action::CreateProject => vec![Role::Teacher, Role::Admin],
            Action::DeleteProject => vec![Role::Teacher, Role::Admin],
        };
        proof {
            assert forall|role: Role| roles@.contains(role) <==> permits(*self, role) by {
                if permits(*self, role) {
                    if role == Role::Admin {
                        assert(roles@[roles@.len() - 1] == Role::Admin);
                    } else {
                        assert(roles@[0] == Role::Teacher);
                    }
                }
            }
        }
        roles
    }

    /// Lets the caller take this action if its role permits it, and reports
    /// it as forbidden otherwise.
    pub fn check(&self, context: &AuthContext) -> (outcome: Result<(), ApiError>)
        ensures
            outcome is Ok <==> permits(*self, context.role),
            outcome is Err ==> outcome == Err::<(), ApiError>(ApiError::Forbidden),
    {
        let roles = self.required_roles();
        require_roles(context, roles.as_slice())
    }
}

/// An admin may take every guarded action.
pub proof fn admin_passes_every_guard(action: Action)
    ensures
        permits(action, Role::Admin),
{
}

/// A caller whose role is not among the required ones is refused with
/// status 403, and a caller whose role is among them passes.
pub proof fn insufficient_role_is_forbidden(identity: Identity, required: Seq<Role>)
    ensures
        !required.contains(identity.role) ==> role_check(identity, required) == Err::<
            (),
            ApiError,
        >(ApiError::Forbidden),
        required.contains(identity.role) ==> role_check(identity, required) is Ok,
        status_of(ApiError::Forbidden) == 403,
{
}

/// A caller cannot tell another account's resource from one that does not
/// exist: both are reported as not found, which is status 404.
pub proof fn foreign_resource_looks_missing(identity: Identity, owner: i32)
    requires
        identity.user_id != owner,
    ensures
        access_check(identity, Ok(Some(owner))) == access_check(identity, Ok(None)),
        access_check(identity, Ok(None)) == Err::<(), ApiError>(ApiError::NotFound),
        status_of(ApiError::NotFound) == 404,
{
}

/// The guard looks at the role alone: two callers with the same role get the
/// same answer.
pub proof fn role_check_depends_on_role_only(a: Identity, b: Identity, required: Seq<Role>)
    requires
        a.role == b.role,
    ensures
        role_check(a, required) == role_check(b, required),
{
}

} // verus!
