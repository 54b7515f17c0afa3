use vstd::prelude::*;

use crate::catalog::{permission_code, string_views, Permission};
use crate::records::copy_strings;

verus! {

/// The outcome of resolving a user's permissions in one scope (a project, or
/// the global scope when `project_id` is `None`).
#[derive(Clone, Debug)]
pub struct ResolvedPermissions {
    pub user_id: String,
    pub project_id: Option<String>,
    pub permissions: Vec<String>,
    pub is_admin: bool,
    pub resolved_at: i64,
}

/// What a resolution outcome holds, as mathematical values.
pub struct ResolvedView {
    pub user_id: Seq<char>,
    pub project_id: Option<Seq<char>>,
    pub permissions: Seq<Seq<char>>,
    pub is_admin: bool,
    pub resolved_at: i64,
}

/// The characters of an optional string.
pub open spec fn opt_view(s: Option<String>) -> Option<Seq<char>> {
    match s {
        Some(x) => Some(x@),
        None => None,
    }
}

impl View for ResolvedPermissions {
    type V = ResolvedView;

    open spec fn view(&self) -> ResolvedView {
        ResolvedView {
            user_id: self.user_id@,
            project_id: opt_view(self.project_id),
            permissions: string_views(self.permissions@),
            is_admin: self.is_admin,
            resolved_at: self.resolved_at,
        }
    }
}

impl ResolvedPermissions {
    /// A field-by-field copy.
    pub fn duplicate(&self) -> (r: ResolvedPermissions)
        ensures
            r@ == self@,
    {
        let project_id = match &self.project_id {
            Some(p) => Some(p.clone()),
            None => None,
        };
        ResolvedPermissions {
            user_id: self.user_id.clone(),
            project_id,
            permissions: copy_strings(&self.permissions),
            is_admin: self.is_admin,
            resolved_at: self.resolved_at,
        }
    }

    /// The set of permission encodings held.
    pub open spec fn permission_set(&self) -> Set<Seq<char>> {
        string_views(self.permissions@).to_set()
    }

    /// Whether the permission with encoding `code` is granted: always for an
    /// administrator, otherwise exactly when it is held.
    pub open spec fn grants(&self, code: Seq<char>) -> bool {
        self.is_admin || string_views(self.permissions@).contains(code)
    }

    /// Whether the permission encoded as `code` is among those held.
    fn holds(&self, code: &String) -> (r: bool)
        ensures
            r == string_views(self.permissions@).contains(code@),
    {
        let mut i: usize = 0;
        while i < self.permissions.len()
            invariant
                i <= self.permissions@.len(),
                forall|j: int| 0 <= j < i ==> #[trigger] self.permissions@[j]@ != code@,
            decreases self.permissions.len() - i,
        {
            if self.permissions[i] == *code {
                assert(string_views(self.permissions@)[i as int] == code@);
                return true;
            }
            i = i + 1;
        }
        proof {
            if string_views(self.permissions@).contains(code@) {
                let k = choose|k: int|
                    0 <= k < string_views(self.permissions@).len()
                        && string_views(self.permissions@)[k] == code@;
                assert(self.permissions@[k]@ != code@);
            }
        }
        false
    }

    /// Whether `permission` is granted.
    pub fn has_permission(&self, permission: Permission) -> (r: bool)
        ensures
            r == self.grants(permission_code(permission)),
    {
        if self.is_admin {
            return true;
        }
        let code = permission.as_str().to_string();
        self.holds(&code)
    }

    /// Whether at least one of `permissions` is granted (always, for an
    /// administrator).
    pub fn has_any_permission(&self, permissions: &[Permission]) -> (r: bool)
        ensures
            r == (self.is_admin || exists|i: int|
                0 <= i < permissions@.len() && #[trigger] self.grants(
                    permission_code(permissions@[i]),
                )),
    {
        if self.is_admin {
            return true;
        }
        let mut i: usize = 0;
        while i < permissions.len()
            invariant
                i <= permissions@.len(),
                !self.is_admin,
                forall|j: int| 0 <= j < i ==> !#[trigger] self.grants(permission_code(permissions@[j])),
            decreases permissions.len() - i,
        {
            if self.has_permission(permissions[i]) {
                return true;
            }
            i = i + 1;
        }
        false
    }

    /// Whether every one of `permissions` is granted (always, for an
    /// administrator).
    pub fn has_all_permissions(&self, permissions: &[Permission]) -> (r: bool)
        ensures
            r == (self.is_admin || forall|i: int|
                0 <= i < permissions@.len() ==> #[trigger] self.grants(
                    permission_code(permissions@[i]),
                )),
    {
        if self.is_admin {
            return true;
        }
        let mut i: usize = 0;
        while i < permissions.len()
            invariant
                i <= permissions@.len(),
                !self.is_admin,
                forall|j: int| 0 <= j < i ==> #[trigger] self.grants(permission_code(permissions@[j])),
            decreases permissions.len() - i,
        {
            if !self.has_permission(permissions[i]) {
                return false;
            }
            i = i + 1;
        }
        true
    }
}

} // verus!
