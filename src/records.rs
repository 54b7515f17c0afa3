use vstd::prelude::*;

use crate::catalog::{
    lemma_code_round_trip, permission_code, permission_from_code, string_views, Permission, UserRole,
};

verus! {

/// A tenant-scoped, named set of permission encodings.
#[derive(Clone, Debug)]
pub struct Role {
    pub role_id: String,
    pub name: String,
    pub description: String,
    pub permissions: Vec<String>,
    pub is_system_role: bool,
    pub tenant_id: String,
    pub created_at: i64,
    pub updated_at: i64,
}

/// What a role holds, as mathematical values.
pub struct RoleView {
    pub role_id: Seq<char>,
    pub name: Seq<char>,
    pub description: Seq<char>,
    pub permissions: Seq<Seq<char>>,
    pub is_system_role: bool,
    pub tenant_id: Seq<char>,
    pub created_at: i64,
    pub updated_at: i64,
}

impl View for Role {
    type V = RoleView;

    open spec fn view(&self) -> RoleView {
        RoleView {
            role_id: self.role_id@,
            name: self.name@,
            description: self.description@,
            permissions: string_views(self.permissions@),
            is_system_role: self.is_system_role,
            tenant_id: self.tenant_id@,
            created_at: self.created_at,
            updated_at: self.updated_at,
        }
    }
}

/// The assignment of one role to one user within one project.
#[derive(Clone, Debug)]
pub struct ProjectMembership {
    pub membership_id: String,
    pub user_id: String,
    pub project_id: String,
    pub role_id: String,
    pub tenant_id: String,
    pub created_at: i64,
    pub updated_at: i64,
}

/// What a membership holds, as mathematical values.
pub struct MembershipView {
    pub membership_id: Seq<char>,
    pub user_id: Seq<char>,
    pub project_id: Seq<char>,
    pub role_id: Seq<char>,
    pub tenant_id: Seq<char>,
    pub created_at: i64,
    pub updated_at: i64,
}

impl View for ProjectMembership {
    type V = MembershipView;

    open spec fn view(&self) -> MembershipView {
        MembershipView {
            membership_id: self.membership_id@,
            user_id: self.user_id@,
            project_id: self.project_id@,
            role_id: self.role_id@,
            tenant_id: self.tenant_id@,
            created_at: self.created_at,
            updated_at: self.updated_at,
        }
    }
}

/// A user as the user directory describes it.
#[derive(Clone, Debug)]
pub struct UserEntry {
    pub user_id: String,
    pub role: UserRole,
    pub tenant_id: String,
}

/// What a directory user holds, as mathematical values.
pub struct UserView {
    pub user_id: Seq<char>,
    pub role: UserRole,
    pub tenant_id: Seq<char>,
}

impl View for UserEntry {
    type V = UserView;

    open spec fn view(&self) -> UserView {
        UserView { user_id: self.user_id@, role: self.role, tenant_id: self.tenant_id@ }
    }
}

/// A project as the project directory describes it.
#[derive(Clone, Debug)]
pub struct ProjectEntry {
    pub project_id: String,
    pub owner_id: String,
    pub tenant_id: String,
}

/// What a directory project holds, as mathematical values.
pub struct ProjectView {
    pub project_id: Seq<char>,
    pub owner_id: Seq<char>,
    pub tenant_id: Seq<char>,
}

impl View for ProjectEntry {
    type V = ProjectView;

    open spec fn view(&self) -> ProjectView {
        ProjectView {
            project_id: self.project_id@,
            owner_id: self.owner_id@,
            tenant_id: self.tenant_id@,
        }
    }
}

/// A copy of a list of strings.
pub fn copy_strings(v: &Vec<String>) -> (r: Vec<String>)
    ensures
        r@ == v@,
{
    let mut r: Vec<String> = Vec::new();
    let mut i: usize = 0;
    while i < v.len()
        invariant
            i <= v@.len(),
            r@ == v@.subrange(0, i as int),
        decreases v.len() - i,
    {
        r.push(v[i].clone());
        i = i + 1;
        assert(r@ =~= v@.subrange(0, i as int));
    }
    assert(v@.subrange(0, i as int) =~= v@);
    r
}

impl Role {
    /// The catalog permissions among this role's strings; any other string is
    /// left out.
    pub fn get_permissions(&self) -> (r: Vec<Permission>)
        ensures
            forall|p: Permission|
                r@.contains(p) <==> string_views(self.permissions@).contains(permission_code(p)),
    {
        let mut out: Vec<Permission> = Vec::new();
        let mut i: usize = 0;
        while i < self.permissions.len()
            invariant
                i <= self.permissions@.len(),
                forall|p: Permission|
                    out@.contains(p) <==> exists|j: int|
                        0 <= j < i && #[trigger] self.permissions@[j]@ == permission_code(p),
            decreases self.permissions.len() - i,
        {
            let ghost before = out@;
            let ghost s = self.permissions@[i as int]@;
            let decoded = Permission::from_str(self.permissions[i].as_str());
            if let Some(p) = decoded {
                out.push(p);
            }
            proof {
                assert forall|q: Permission|
                    out@.contains(q) <==> (before.contains(q) || permission_code(q) == s) by {
                    lemma_code_round_trip(q);
                    if out@.contains(q) && !before.contains(q) {
                        let k = choose|k: int| 0 <= k < out@.len() && out@[k] == q;
                        assert(k == before.len());
                    }
                    if permission_code(q) == s {
                        assert(out@[out@.len() - 1] == q);
                    }
                    if before.contains(q) {
                        let k = choose|k: int| 0 <= k < before.len() && before[k] == q;
                        assert(out@[k] == q);
                    }
                }
                assert forall|q: Permission|
                    out@.contains(q) <==> exists|j: int|
                        0 <= j < i + 1 && #[trigger] self.permissions@[j]@ == permission_code(q) by {
                    if permission_code(q) == s {
                        assert(self.permissions@[i as int]@ == permission_code(q));
                    }
                    if exists|j: int|
                        0 <= j < i + 1 && #[trigger] self.permissions@[j]@ == permission_code(q) {
                        let j = choose|j: int|
                            0 <= j < i + 1 && #[trigger] self.permissions@[j]@ == permission_code(q);
                        if j < i {
                            assert(before.contains(q));
                        }
                    }
                }
            }
            i = i + 1;
        }
        proof {
            assert forall|p: Permission|
                out@.contains(p) <==> string_views(self.permissions@).contains(permission_code(p)) by {
                if string_views(self.permissions@).contains(permission_code(p)) {
                    let j = choose|j: int|
                        0 <= j < string_views(self.permissions@).len() && string_views(
                            self.permissions@,
                        )[j] == permission_code(p);
                    assert(self.permissions@[j]@ == permission_code(p));
                }
                if out@.contains(p) {
                    let j = choose|j: int|
                        0 <= j < i && #[trigger] self.permissions@[j]@ == permission_code(p);
                    assert(string_views(self.permissions@)[j] == permission_code(p));
                }
            }
        }
        out
    }

    /// A field-by-field copy.
    pub fn duplicate(&self) -> (r: Role)
        ensures
            r@ == self@,
    {
        Role {
            role_id: self.role_id.clone(),
            name: self.name.clone(),
            description: self.description.clone(),
            permissions: copy_strings(&self.permissions),
            is_system_role: self.is_system_role,
            tenant_id: self.tenant_id.clone(),
            created_at: self.created_at,
            updated_at: self.updated_at,
        }
    }
}

impl ProjectMembership {
    /// A field-by-field copy.
    pub fn duplicate(&self) -> (r: ProjectMembership)
        ensures
            r@ == self@,
    {
        ProjectMembership {
            membership_id: self.membership_id.clone(),
            user_id: self.user_id.clone(),
            project_id: self.project_id.clone(),
            role_id: self.role_id.clone(),
            tenant_id: self.tenant_id.clone(),
            created_at: self.created_at,
            updated_at: self.updated_at,
        }
    }
}

impl UserEntry {
    /// A field-by-field copy.
    pub fn duplicate(&self) -> (r: UserEntry)
        ensures
            r@ == self@,
    {
        UserEntry { user_id: self.user_id.clone(), role: self.role, tenant_id: self.tenant_id.clone() }
    }
}

impl ProjectEntry {
    /// A field-by-field copy.
    pub fn duplicate(&self) -> (r: ProjectEntry)
        ensures
            r@ == self@,
    {
        ProjectEntry {
            project_id: self.project_id.clone(),
            owner_id: self.owner_id.clone(),
            tenant_id: self.tenant_id.clone(),
        }
    }
}

} // verus!
