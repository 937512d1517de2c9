use vstd::prelude::*;

use crate::errors::auth::AuthError;
use crate::models::users::{Role, all_roles, admin_roles, lemma_all_roles_complete, lemma_admin_only};

verus! {

/// The layer that admits a request only when the caller's role is listed.
pub struct RoleLayer {
    allowed_roles: Vec<Role>,
}

/// The service that a `RoleLayer` wraps around a route.
pub struct RoleGuardMiddleware<S> {
    inner: S,
    allowed_roles: Vec<Role>,
}

impl RoleLayer {
    /// A guard admitting exactly the listed roles.
    pub fn new(allowed_roles: Vec<Role>) -> (layer: RoleLayer)
        ensures
            layer.allowed()@ == allowed_roles@,
    {
        RoleLayer { allowed_roles }
    }

    /// The roles this guard admits.
    pub closed spec fn allowed(&self) -> Vec<Role> {
        self.allowed_roles
    }

    /// Whether a caller with this role is admitted.
    pub fn allows(&self, role: Role) -> (admitted: bool)
        ensures
            admitted == self.allowed()@.contains(role),
    {
        role_listed(&self.allowed_roles, role)
    }

    /// The decision on a request, given the role in the caller's verified
    /// claims (none when the request carries no valid token): it passes when
    /// the role is listed, and is refused as `Unauthorized` otherwise.
    pub fn check(&self, role: Option<Role>) -> (decision: Result<(), AuthError>)
        ensures
            decision is Ok <==> (role matches Some(r) && self.allowed()@.contains(r)),
            decision is Err ==> decision == Err::<(), AuthError>(AuthError::Unauthorized),
    {
        match role {
            Some(r) => {
                if role_listed(&self.allowed_roles, r) {
                    Ok(())
                } else {
                    Err(AuthError::Unauthorized)
                }
            },
            None => Err(AuthError::Unauthorized),
        }
    }

    /// The guard placed around a service; it admits the same roles.
    pub fn wrap<S>(&self, inner: S) -> (guard: RoleGuardMiddleware<S>)
        ensures
            guard.allowed()@ == self.allowed()@,
            guard.inner() == inner,
    {
        RoleGuardMiddleware { inner, allowed_roles: self.allowed_roles.clone() }
    }
}

impl<S> RoleGuardMiddleware<S> {
    /// The roles this guard admits.
    pub closed spec fn allowed(&self) -> Vec<Role> {
        self.allowed_roles
    }

    /// The wrapped service.
    pub closed spec fn inner(&self) -> S {
        self.inner
    }

    /// Whether a caller with this role is let through to the wrapped service.
    pub fn allows(&self, role: Role) -> (admitted: bool)
        ensures
            admitted == self.allowed()@.contains(role),
    {
        role_listed(&self.allowed_roles, role)
    }
}

/// A guard built from `Role::all` admits every caller; one built from
/// `Role::admin_only` admits administrators and no one else.
pub proof fn lemma_guard_admission(layer: RoleLayer, role: Role)
    ensures
        layer.allowed()@ == all_roles() ==> layer.allowed()@.contains(role),
        layer.allowed()@ == admin_roles() ==> (layer.allowed()@.contains(role) <==> role == Role::Admin),
{
    lemma_all_roles_complete(role);
    lemma_admin_only(role);
}

/// Whether a role occurs in a list.
fn role_listed(roles: &Vec<Role>, role: Role) -> (found: bool)
    ensures
        found == roles@.contains(role),
{
    let mut i: usize = 0;
    while i < roles.len()
        invariant
            i <= roles@.len(),
            forall|j: int| 0 <= j < i ==> roles@[j] != role,
        decreases roles@.len() - i,
    {
        if roles[i] == role {
            assert(roles@[i as int] == role);
            return true;
        }
        i = i + 1;
    }
    false
}

} // verus!
