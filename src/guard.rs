use vstd::prelude::*;

use crate::catalog::{permission_code, Permission};
use crate::resolved::ResolvedPermissions;

verus! {

/// What a route demands: some or all of a list of permissions, resolved in a
/// project's scope when the project comes from the request path.
#[derive(Clone, Debug)]
pub struct RequirePermission {
    pub permissions: Vec<Permission>,
    pub require_all: bool,
    pub extract_project_from_path: bool,
}

impl RequirePermission {
    /// Demands one permission.
    pub fn single(permission: Permission) -> (r: RequirePermission)
        ensures
            r.permissions@ == seq![permission],
            r.require_all,
            !r.extract_project_from_path,
    {
        RequirePermission {
            permissions: vec![permission],
            require_all: true,
            extract_project_from_path: false,
        }
    }

    /// Demands at least one of the permissions.
    pub fn any_of(permissions: Vec<Permission>) -> (r: RequirePermission)
        ensures
            r.permissions@ == permissions@,
            !r.require_all,
            !r.extract_project_from_path,
    {
        RequirePermission { permissions, require_all: false, extract_project_from_path: false }
    }

    /// Demands every one of the permissions.
    pub fn all_of(permissions: Vec<Permission>) -> (r: RequirePermission)
        ensures
            r.permissions@ == permissions@,
            r.require_all,
            !r.extract_project_from_path,
    {
        RequirePermission { permissions, require_all: true, extract_project_from_path: false }
    }

    /// The same demand, resolved in the scope of the project named by the
    /// request path.
    pub fn with_project_from_path(self) -> (r: RequirePermission)
        ensures
            r.permissions@ == self.permissions@,
            r.require_all == self.require_all,
            r.extract_project_from_path,
    {
        let mut r = self;
        r.extract_project_from_path = true;
        r
    }

    /// Whether `resolved` meets the demand: all of the permissions or at
    /// least one of them (an administrator meets any demand).
    pub open spec fn satisfied_by(&self, resolved: ResolvedPermissions) -> bool {
        if self.require_all {
            resolved.is_admin || forall|i: int|
                0 <= i < self.permissions@.len() ==> #[trigger] resolved.grants(
                    permission_code(self.permissions@[i]),
                )
        } else {
            resolved.is_admin || exists|i: int|
                0 <= i < self.permissions@.len() && #[trigger] resolved.grants(
                    permission_code(self.permissions@[i]),
                )
        }
    }

    /// Checks a resolution against the demand.
    pub fn is_satisfied_by(&self, resolved: &ResolvedPermissions) -> (r: bool)
        ensures
            r == self.satisfied_by(*resolved),
    {
        if self.require_all {
            resolved.has_all_permissions(self.permissions.as_slice())
        } else {
            resolved.has_any_permission(self.permissions.as_slice())
        }
    }

    /// The scope to resolve in: the project named by the path when the demand
    /// asks for it, else the global scope.
    pub fn scope<'a>(&self, path_project_id: Option<&'a str>) -> (r: Option<&'a str>)
        ensures
            r == if self.extract_project_from_path {
                path_project_id
            } else {
                None
            },
    {
        if self.extract_project_from_path {
            path_project_id
        } else {
            None
        }
    }
}

} // verus!
