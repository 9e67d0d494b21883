//! The authorization predicates: what a principal may do to a resource.
//!
//! Each gate is a function of the principal and of what is known of the
//! resource. None of them keeps state, and none compares roles by rank: an
//! admin is let through because each predicate names the admin.

use vstd::prelude::*;
use crate::failure::{FailureKind, StoreError};
use crate::principal::AuthenticatedUser;
use crate::role::UserRole;

verus! {

/// What a gate decides.
#[derive(Debug, Clone, Copy, PartialEq, Eq, Structural)]
pub enum Decision {
    /// The operation may proceed.
    Permit,
    /// The principal may not do this.
    Forbidden,
    /// There is no such resource.
    NotFound,
}

/// Whether a role may create resources: instructors and admins may.
pub open spec fn may_create(role: UserRole) -> bool {
    role == UserRole::Instructor || role == UserRole::Admin
}

/// Whether a principal may change a resource: its owner may, and an admin.
pub open spec fn owner_or_admin(user: AuthenticatedUser, owner_id: u128) -> bool {
    owner_id == user.id || user.role == UserRole::Admin
}

/// What the ownership gate decides on a resource with the given owner,
/// `None` where the resource does not exist.
pub open spec fn spec_ownership_gate(user: AuthenticatedUser, owner_id: Option<u128>) -> Decision {
    match owner_id {
        None => Decision::NotFound,
        Some(owner) => if owner_or_admin(user, owner) {
            Decision::Permit
        } else {
            Decision::Forbidden
        },
    }
}

/// The creation gate: permits instructors and admins, forbids everyone else.
pub fn creation_gate(user: &AuthenticatedUser) -> (decision: Decision)
    ensures
        decision == if may_create(user.role) {
            Decision::Permit
        } else {
            Decision::Forbidden
        },
{
    match user.role {
        UserRole::Instructor | UserRole::Admin => Decision::Permit,
        UserRole::Student => Decision::Forbidden,
    }
}

/// The ownership gate. `owner_id` is the owner of the resource, `None` where
/// the resource does not exist. A resource that does not exist is not found,
/// whoever asks; one that exists is open to its owner and to an admin, and
/// forbidden to everyone else.
pub fn ownership_gate(user: &AuthenticatedUser, owner_id: Option<u128>) -> (decision: Decision)
    ensures
        decision == spec_ownership_gate(*user, owner_id),
{
    match owner_id {
        None => Decision::NotFound,
        Some(owner) => {
            if owner == user.id {
                Decision::Permit
            } else {
                match user.role {
                    UserRole::Admin => Decision::Permit,
                    _ => Decision::Forbidden,
                }
            }
        },
    }
}

/// The self-scoping gate: the one principal whose resources a request for
/// "my" resources reaches. There is nothing to allow or deny; the scope is
/// the control.
pub fn self_scope(user: &AuthenticatedUser) -> (owner_id: u128)
    ensures
        owner_id == user.id,
{
    user.id
}

/// The kind of failure that a failed write to the store is surfaced as.
pub open spec fn spec_uniqueness_gate(error: StoreError) -> FailureKind {
    match error {
        StoreError::UniqueViolation => FailureKind::Conflict,
        _ => FailureKind::Internal,
    }
}

/// The uniqueness gate. Uniqueness is enforced by the store, and what the
/// store said of a failed write is classified here: a violated uniqueness
/// rule is a conflict, any other failure is internal.
pub fn uniqueness_gate(error: StoreError) -> (kind: FailureKind)
    ensures
        kind == spec_uniqueness_gate(error),
{
    match error {
        StoreError::UniqueViolation => FailureKind::Conflict,
        _ => FailureKind::Internal,
    }
}

/// The ownership gate, case by case. Take a resource that exists and is owned
/// by `owner_id`. A principal who is not the owner and is a student is
/// forbidden; the same principal as admin is permitted; the owner is
/// permitted under any role.
pub proof fn law_ownership_gate(owner_id: u128, other_id: u128, role: UserRole)
    requires
        other_id != owner_id,
    ensures
        spec_ownership_gate(
            AuthenticatedUser { id: other_id, role: UserRole::Student },
            Some(owner_id),
        ) == Decision::Forbidden,
        spec_ownership_gate(
            AuthenticatedUser { id: other_id, role: UserRole::Admin },
            Some(owner_id),
        ) == Decision::Permit,
        spec_ownership_gate(AuthenticatedUser { id: owner_id, role }, Some(owner_id))
            == Decision::Permit,
{
}

} // verus!
