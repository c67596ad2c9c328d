//! Creating a project.
//!
//! Projects are created by teachers and admins, for themselves. The store
//! is asked twice, so the creation is a sequence of decisions with the
//! store's answers between them, as signing up is.

use vstd::prelude::*;
use crate::error::ApiError;
use crate::gate::AuthContext;
use crate::guard::{permits, Action};
use crate::role::Role;
use crate::store::StoreFailure;

verus! {

/// Where the creation of a project stands, and what is to be done next.
#[derive(Clone, Debug, PartialEq, Eq)]
pub enum CreateProjectStep {
    /// Ask the store whether the account with this number exists, then go
    /// on with `after_owner_lookup`.
    FindOwner(i32),
    /// Store the project with this account as its owner, then go on with
    /// `after_project_insert`.
    Insert(i32),
    /// The project exists now: answer with status 201.
    Created,
    /// Nothing more is done: answer with this error.
    Refused(ApiError),
}

/// Whether the store's answer says that the owner exists. Anything but a
/// plain yes counts as no.
pub open spec fn owner_exists(found: Result<Option<bool>, StoreFailure>) -> bool {
    found == Ok::<Option<bool>, StoreFailure>(Some(true))
}

/// How the creation starts for a caller with this role and number.
pub open spec fn creation_start(role: Role, user_id: i32) -> CreateProjectStep {
    if permits(Action::CreateProject, role) {
        CreateProjectStep::FindOwner(user_id)
    } else {
        CreateProjectStep::Refused(ApiError::Forbidden)
    }
}

/// First step: the role guard comes before everything else. A caller whose
/// role does not permit the creation is refused as forbidden, and the store
/// is not asked anything. Otherwise the caller is to become the owner.
pub fn create_project(context: &AuthContext) -> (step: CreateProjectStep)
    ensures
        step == creation_start(context.role, context.user_id),
{
    match Action::CreateProject.check(context) {
        Ok(_) => CreateProjectStep::FindOwner(context.user_id),
        Err(error) => CreateProjectStep::Refused(error),
    }
}

/// Second step, with the store's answer to whether the owner exists. An
/// owner that is not known to exist makes the request invalid.
pub fn after_owner_lookup(owner: i32, found: Result<Option<bool>, StoreFailure>) -> (step:
    CreateProjectStep)
    ensures
        step == if owner_exists(found) {
            CreateProjectStep::Insert(owner)
        } else {
            CreateProjectStep::Refused(ApiError::ValidationError)
        },
{
    match found {
        Ok(Some(true)) => CreateProjectStep::Insert(owner),
        _ => CreateProjectStep::Refused(ApiError::ValidationError),
    }
}

/// Last step, with the store's answer to the insertion.
pub fn after_project_insert(stored: Result<(), StoreFailure>) -> (step: CreateProjectStep)
    ensures
        step == if stored is Ok {
            CreateProjectStep::Created
        } else {
            CreateProjectStep::Refused(ApiError::Internal)
        },
{
    match stored {
        Ok(_) => CreateProjectStep::Created,
        Err(_) => CreateProjectStep::Refused(ApiError::Internal),
    }
}

/// A student's request to create a project ends at the guard, with status
/// 403, before the store is asked anything; the same request from a teacher
/// or an admin goes on to the store.
pub proof fn creation_is_guarded(user_id: i32)
    ensures
        creation_start(Role::Student, user_id) == CreateProjectStep::Refused(ApiError::Forbidden),
        creation_start(Role::Teacher, user_id) == CreateProjectStep::FindOwner(user_id),
        creation_start(Role::Admin, user_id) == CreateProjectStep::FindOwner(user_id),
        crate::error::status_of(ApiError::Forbidden) == 403,
{
}

} // verus!
