use vstd::prelude::*;

use crate::cache::{
    expiry, permissions_key, permissions_key_of, role_key, role_key_of, MemoryCache,
    PERMISSION_CACHE_TTL, ROLE_CACHE_TTL,
};
use crate::catalog::{
    catalog, codes, get_all_permissions, global_bundle, invalid_permissions, member_bundle,
    member_permissions, not_a_permission, owner_bundle, owner_permissions, permission_code,
    str_equal, string_views, viewer_bundle, viewer_permissions, Permission, UserRole,
};
use crate::dto::{AssignRoleDto, CreateRoleDto, ProjectMembershipResponse, UpdateRoleDto};
use crate::error::RbacError;
use crate::guard::RequirePermission;
use crate::keyed::lemma_filter_map_values;
use crate::records::{MembershipView, ProjectMembership, Role, RoleView};
use crate::resolved::{opt_view, ResolvedPermissions, ResolvedView};
use crate::store::{
    by_member_pair, by_role_id, holds_role, in_project, in_tenant, of_user, MemoryStore,
};
use crate::trusted::{current_timestamp, fresh_id};

verus! {

/// The scope named by an optional project id.
pub open spec fn scope_of(project_id: Option<&str>) -> Option<Seq<char>> {
    match project_id {
        Some(p) => Some(p@),
        None => None,
    }
}

/// The access-control core over a document store and a cache.
pub struct RbacService {
    pub store: MemoryStore,
    pub cache: MemoryCache,
}

impl RbacService {
    /// Both the store and the cache are keyed uniquely.
    pub open spec fn wf(&self) -> bool {
        self.store.wf() && self.cache.wf()
    }

    /// A role looked up through the cache at `now`: a live cache entry first,
    /// else the store; `None` when the store is needed and unreachable.
    pub open spec fn role_through_cache(&self, role_id: Seq<char>, now: i64) -> Option<
        Option<RoleView>,
    > {
        match self.cache.live_role(role_key_of(role_id), now) {
            Some(v) => Some(Some(v)),
            None => if !self.store.reachable {
                None
            } else if self.store.role_map().contains_key(role_id) {
                Some(Some(self.store.role_map()[role_id]))
            } else {
                Some(None)
            },
        }
    }

    /// The cached roles after such a lookup: a role read from the store is
    /// kept for `ROLE_CACHE_TTL` seconds.
    pub open spec fn role_cache_after_lookup(&self, role_id: Seq<char>, now: i64) -> Map<
        Seq<char>,
        (RoleView, i64),
    > {
        if self.cache.live_role(role_key_of(role_id), now) is None && self.store.reachable
            && self.store.role_map().contains_key(role_id) && self.cache.reachable {
            self.cache.role_map().insert(
                role_key_of(role_id),
                (self.store.role_map()[role_id], expiry(now, ROLE_CACHE_TTL)),
            )
        } else {
            self.cache.role_map()
        }
    }

    /// What resolution computes when the cache holds no live outcome: the
    /// permission encodings and the administrator flag, or the failure.
    pub open spec fn resolution(
        &self,
        user_id: Seq<char>,
        project_id: Option<Seq<char>>,
        now: i64,
    ) -> Result<(Seq<Seq<char>>, bool), RbacError> {
        if !self.store.reachable {
            Err(RbacError::Internal)
        } else if !self.store.user_map().contains_key(user_id) {
            Err(RbacError::NotFound)
        } else {
            let user = self.store.user_map()[user_id];
            if user.role == UserRole::Admin {
                Ok((codes(catalog()), true))
            } else {
                match project_id {
                    None => Ok((codes(global_bundle(user.role)), false)),
                    Some(pid) => {
                        let pair = (user_id, pid);
                        let from_role = if self.store.membership_map().contains_key(pair) {
                            self.role_through_cache(self.store.membership_map()[pair].role_id, now)
                        } else {
                            Some(None)
                        };
                        if from_role is Some && from_role->0 is Some {
                            Ok((from_role->0->0.permissions, false))
                        } else if self.store.project_map().contains_key(pid)
                            && self.store.project_map()[pid].owner_id == user_id {
                            Ok((codes(owner_bundle()), false))
                        } else {
                            Ok((Seq::empty(), false))
                        }
                    },
                }
            }
        }
    }

    /// The cached roles after a resolution that missed the cache: only a
    /// project-scoped resolution of a member reads a role.
    pub open spec fn role_cache_after_resolution(
        &self,
        user_id: Seq<char>,
        project_id: Option<Seq<char>>,
        now: i64,
    ) -> Map<Seq<char>, (RoleView, i64)> {
        if self.store.reachable && self.store.user_map().contains_key(user_id)
            && self.store.user_map()[user_id].role != UserRole::Admin && project_id is Some
            && self.store.membership_map().contains_key((user_id, project_id->0)) {
            self.role_cache_after_lookup(
                self.store.membership_map()[(user_id, project_id->0)].role_id,
                now,
            )
        } else {
            self.cache.role_map()
        }
    }
}

/// How resolving `user_id` in scope `project_id` at `now` takes `old` to
/// `new` with result `r`: a live cached outcome is returned as it is;
/// otherwise the outcome is computed from the store (roles through the cache)
/// and cached for `PERMISSION_CACHE_TTL` seconds.
pub open spec fn resolve_outcome(
    old: RbacService,
    new: RbacService,
    user_id: Seq<char>,
    project_id: Option<Seq<char>>,
    now: i64,
    r: Result<ResolvedPermissions, RbacError>,
) -> bool {
    let key = permissions_key_of(user_id, project_id);
    &&& new.wf()
    &&& new.store == old.store
    &&& new.cache.reachable == old.cache.reachable
    &&& match old.cache.live_resolved(key, now) {
        Some(v) => {
            &&& r matches Ok(x) && x@ == v
            &&& new.cache.resolved_map() == old.cache.resolved_map()
            &&& new.cache.role_map() == old.cache.role_map()
        },
        None => match old.resolution(user_id, project_id, now) {
            Err(e) => {
                &&& r == Err::<ResolvedPermissions, RbacError>(e)
                &&& new.cache.resolved_map() == old.cache.resolved_map()
                &&& new.cache.role_map() == old.cache.role_map()
            },
            Ok((perms, admin)) => {
                &&& r matches Ok(x) && x@ == (ResolvedView {
                    user_id,
                    project_id,
                    permissions: perms,
                    is_admin: admin,
                    resolved_at: now,
                })
                &&& new.cache.resolved_map() == if old.cache.reachable {
                    old.cache.resolved_map().insert(
                        key,
                        (r->Ok_0@, expiry(now, PERMISSION_CACHE_TTL)),
                    )
                } else {
                    old.cache.resolved_map()
                }
                &&& new.cache.role_map() == old.role_cache_after_resolution(
                    user_id,
                    project_id,
                    now,
                )
            },
        },
    }
}

/// The role that a successful creation stores.
pub open spec fn created_role(
    dto: CreateRoleDto,
    tenant_id: Seq<char>,
    role_id: Seq<char>,
    now: i64,
) -> RoleView {
    RoleView {
        role_id,
        name: dto.name@,
        description: dto.description@,
        permissions: string_views(dto.permissions@),
        is_system_role: false,
        tenant_id,
        created_at: now,
        updated_at: now,
    }
}

/// The cache keys of the resolutions of every holder of role `role_id`: the
/// project scope of each membership that references it, and the user's global
/// scope.
pub open spec fn holder_keys(store: MemoryStore, role_id: Seq<char>) -> Set<Seq<char>> {
    Set::new(
        |k: Seq<char>|
            exists|pair: (Seq<char>, Seq<char>)|
                #[trigger] store.membership_map().contains_key(pair)
                    && store.membership_map()[pair].role_id == role_id && (k
                    == permissions_key_of(pair.0, Some(pair.1)) || k == permissions_key_of(
                    pair.0,
                    None,
                )),
    )
}

/// How creating a role from `dto` in `tenant_id` under the id `role_id` at
/// `now` takes `old` to `new` with result `r`. Name and description are
/// checked first, then the permissions; a rejected request changes nothing.
pub open spec fn create_outcome(
    old: RbacService,
    new: RbacService,
    dto: CreateRoleDto,
    tenant_id: Seq<char>,
    role_id: Seq<char>,
    now: i64,
    r: Result<Role, RbacError>,
) -> bool {
    let bad = string_views(dto.permissions@).filter(not_a_permission());
    if !dto.fields_valid() {
        r matches Err(RbacError::InvalidField) && new == old
    } else if bad.len() > 0 {
        r matches Err(RbacError::InvalidPermissions(b)) && string_views(b@) == bad && new == old
    } else if !old.store.reachable {
        r matches Err(RbacError::Internal) && new == old
    } else if old.store.role_map().contains_key(role_id) {
        r matches Err(RbacError::DuplicateRoleId) && new == old
    } else {
        let role = created_role(dto, tenant_id, role_id, now);
        &&& r matches Ok(x) && x@ == role
        &&& new.wf()
        &&& new.store.reachable
        &&& new.store.role_map() == old.store.role_map().insert(role_id, role)
        &&& new.store.users@ == old.store.users@
        &&& new.store.projects@ == old.store.projects@
        &&& new.store.memberships@ == old.store.memberships@
        &&& new.cache.reachable == old.cache.reachable
        &&& new.cache.resolved_map() == old.cache.resolved_map()
        &&& new.cache.role_map() == if old.cache.reachable {
            old.cache.role_map().remove(role_key_of(role_id))
        } else {
            old.cache.role_map()
        }
    }
}

/// The cache keys of the resolutions of the first `n` memberships of `ms`:
/// each one's project scope and its user's global scope.
pub open spec fn membership_keys(ms: Seq<MembershipView>, n: int) -> Set<Seq<char>> {
    Set::new(
        |k: Seq<char>|
            exists|j: int|
                0 <= j < n && (k == permissions_key_of(
                    (#[trigger] ms[j]).user_id,
                    Some(ms[j].project_id),
                ) || k == permissions_key_of(ms[j].user_id, None)),
    )
}

/// A role after the changes of `dto` at `now`.
pub open spec fn updated_role(existing: RoleView, dto: UpdateRoleDto, now: i64) -> RoleView {
    RoleView {
        name: if dto.name is Some {
            dto.name->0@
        } else {
            existing.name
        },
        description: if dto.description is Some {
            dto.description->0@
        } else {
            existing.description
        },
        permissions: if dto.permissions is Some {
            string_views(dto.permissions->0@)
        } else {
            existing.permissions
        },
        updated_at: now,
        ..existing
    }
}

/// How updating role `role_id` of `tenant_id` with `dto` at `now` takes
/// `old` to `new` with result `r`. A rejected request changes nothing; a
/// successful one drops the role's cache entry and the cached resolutions of
/// every holder of the role.
pub open spec fn update_outcome(
    old: RbacService,
    new: RbacService,
    role_id: Seq<char>,
    dto: UpdateRoleDto,
    tenant_id: Seq<char>,
    now: i64,
    r: Result<Role, RbacError>,
) -> bool {
    if !dto.fields_valid() {
        r matches Err(RbacError::InvalidField) && new == old
    } else if !old.store.reachable {
        r matches Err(RbacError::Internal) && new == old
    } else if !old.store.role_map().contains_key(role_id) {
        r matches Err(RbacError::NotFound) && new == old
    } else if old.store.role_map()[role_id].is_system_role {
        r matches Err(RbacError::SystemRoleImmutable) && new == old
    } else if old.store.role_map()[role_id].tenant_id != tenant_id {
        r matches Err(RbacError::AccessDenied) && new == old
    } else if dto.permissions is Some && string_views(dto.permissions->0@).filter(
        not_a_permission(),
    ).len() > 0 {
        r matches Err(RbacError::InvalidPermissions(b)) && string_views(b@) == string_views(
            dto.permissions->0@,
        ).filter(not_a_permission()) && new == old
    } else {
        let role = updated_role(old.store.role_map()[role_id], dto, now);
        &&& r matches Ok(x) && x@ == role
        &&& new.wf()
        &&& new.store.reachable
        &&& new.store.role_map() == old.store.role_map().insert(role_id, role)
        &&& new.store.users@ == old.store.users@
        &&& new.store.projects@ == old.store.projects@
        &&& new.store.memberships@ == old.store.memberships@
        &&& new.cache.reachable == old.cache.reachable
        &&& new.cache.role_map() == if old.cache.reachable {
            old.cache.role_map().remove(role_key_of(role_id))
        } else {
            old.cache.role_map()
        }
        &&& new.cache.resolved_map() == if old.cache.reachable {
            old.cache.resolved_map().remove_keys(holder_keys(old.store, role_id))
        } else {
            old.cache.resolved_map()
        }
    }
}

/// How many memberships reference role `role_id`.
pub open spec fn role_member_count(store: MemoryStore, role_id: Seq<char>) -> nat {
    store.membership_views().filter(holds_role(role_id)).len()
}

/// How deleting role `role_id` of `tenant_id` takes `old` to `new` with
/// result `r`: only a custom role of the tenant that no membership references
/// is deleted, and then only its own cache entry is dropped.
pub open spec fn delete_outcome(
    old: RbacService,
    new: RbacService,
    role_id: Seq<char>,
    tenant_id: Seq<char>,
    r: Result<(), RbacError>,
) -> bool {
    if !old.store.reachable {
        r matches Err(RbacError::Internal) && new == old
    } else if !old.store.role_map().contains_key(role_id) {
        r matches Err(RbacError::NotFound) && new == old
    } else if old.store.role_map()[role_id].is_system_role {
        r matches Err(RbacError::SystemRoleImmutable) && new == old
    } else if old.store.role_map()[role_id].tenant_id != tenant_id {
        r matches Err(RbacError::AccessDenied) && new == old
    } else if role_member_count(old.store, role_id) > 0 {
        r matches Err(RbacError::RoleInUse(n)) && n == role_member_count(old.store, role_id)
            && new == old
    } else {
        &&& r is Ok
        &&& new.wf()
        &&& new.store.reachable
        &&& new.store.role_map() == old.store.role_map().remove(role_id)
        &&& new.store.users@ == old.store.users@
        &&& new.store.projects@ == old.store.projects@
        &&& new.store.memberships@ == old.store.memberships@
        &&& new.cache.reachable == old.cache.reachable
        &&& new.cache.resolved_map() == old.cache.resolved_map()
        &&& new.cache.role_map() == if old.cache.reachable {
            old.cache.role_map().remove(role_key_of(role_id))
        } else {
            old.cache.role_map()
        }
    }
}

/// The membership that assigning `role_id` to `user_id` on `project_id`
/// leaves: the existing one, in place, with the new role under the caller's
/// tenant, else a new one.
pub open spec fn assigned_membership(
    store: MemoryStore,
    user_id: Seq<char>,
    project_id: Seq<char>,
    role_id: Seq<char>,
    tenant_id: Seq<char>,
    membership_id: Seq<char>,
    now: i64,
) -> MembershipView {
    let pair = (user_id, project_id);
    if store.membership_map().contains_key(pair) {
        MembershipView { role_id, tenant_id, updated_at: now, ..store.membership_map()[pair] }
    } else {
        MembershipView {
            membership_id,
            user_id,
            project_id,
            role_id,
            tenant_id,
            created_at: now,
            updated_at: now,
        }
    }
}

/// How assigning the role of `dto` in `tenant_id` at `now` takes `old` to
/// `new` with result `r`, a new membership getting the id `membership_id`.
/// Role and project must belong to the tenant and the user must exist; the
/// user's cached resolutions for the project and the global scope are dropped.
pub open spec fn assign_outcome(
    old: RbacService,
    new: RbacService,
    dto: AssignRoleDto,
    tenant_id: Seq<char>,
    membership_id: Seq<char>,
    now: i64,
    r: Result<ProjectMembership, RbacError>,
) -> bool {
    let (u, p, rid) = (dto.user_id@, dto.project_id@, dto.role_id@);
    let st = old.store;
    if !st.reachable {
        r matches Err(RbacError::Internal) && new == old
    } else if !st.role_map().contains_key(rid) {
        r matches Err(RbacError::NotFound) && new == old
    } else if st.role_map()[rid].tenant_id != tenant_id {
        r matches Err(RbacError::AccessDenied) && new == old
    } else if !st.project_map().contains_key(p) {
        r matches Err(RbacError::NotFound) && new == old
    } else if st.project_map()[p].tenant_id != tenant_id {
        r matches Err(RbacError::AccessDenied) && new == old
    } else if !st.user_map().contains_key(u) {
        r matches Err(RbacError::NotFound) && new == old
    } else {
        let m = assigned_membership(st, u, p, rid, tenant_id, membership_id, now);
        &&& r matches Ok(x) && x@ == m
        &&& new.wf()
        &&& new.store.reachable
        &&& new.store.membership_map() == st.membership_map().insert((u, p), m)
        &&& new.store.users@ == st.users@
        &&& new.store.projects@ == st.projects@
        &&& new.store.roles@ == st.roles@
        &&& new.cache.reachable == old.cache.reachable
        &&& new.cache.roles@ == old.cache.roles@
        &&& new.cache.resolved_map() == if old.cache.reachable {
            old.cache.resolved_map().remove(permissions_key_of(u, Some(p))).remove(
                permissions_key_of(u, None),
            )
        } else {
            old.cache.resolved_map()
        }
    }
}

/// How revoking the membership of `user_id` on `project_id` in `tenant_id`
/// takes `old` to `new` with result `r`.
pub open spec fn revoke_outcome(
    old: RbacService,
    new: RbacService,
    user_id: Seq<char>,
    project_id: Seq<char>,
    tenant_id: Seq<char>,
    r: Result<(), RbacError>,
) -> bool {
    let pair = (user_id, project_id);
    let st = old.store;
    if !st.reachable {
        r matches Err(RbacError::Internal) && new == old
    } else if !(st.membership_map().contains_key(pair) && st.membership_map()[pair].tenant_id
        == tenant_id) {
        r matches Err(RbacError::NotFound) && new == old
    } else {
        &&& r is Ok
        &&& new.wf()
        &&& new.store.reachable
        &&& new.store.membership_map() == st.membership_map().remove(pair)
        &&& new.store.users@ == st.users@
        &&& new.store.projects@ == st.projects@
        &&& new.store.roles@ == st.roles@
        &&& new.cache.reachable == old.cache.reachable
        &&& new.cache.roles@ == old.cache.roles@
        &&& new.cache.resolved_map() == if old.cache.reachable {
            old.cache.resolved_map().remove(permissions_key_of(user_id, Some(project_id))).remove(
                permissions_key_of(user_id, None),
            )
        } else {
            old.cache.resolved_map()
        }
    }
}

/// Whether tenant `tenant_id` has any system role.
pub open spec fn has_system_role(store: MemoryStore, tenant_id: Seq<char>) -> bool {
    exists|k: Seq<char>|
        #[trigger] store.role_map().contains_key(k) && store.role_map()[k].tenant_id == tenant_id
            && store.role_map()[k].is_system_role
}

/// The ids of the system roles of tenant `tenant_id`.
pub open spec fn system_role_ids(store: MemoryStore, tenant_id: Seq<char>) -> Set<Seq<char>> {
    Set::new(
        |k: Seq<char>|
            store.role_map().contains_key(k) && store.role_map()[k].tenant_id == tenant_id
                && store.role_map()[k].is_system_role,
    )
}

/// The system role of `tenant_id` with id suffix `suffix`.
pub open spec fn system_role(
    tenant_id: Seq<char>,
    suffix: Seq<char>,
    name: Seq<char>,
    description: Seq<char>,
    permissions: Seq<Seq<char>>,
    now: i64,
) -> RoleView {
    RoleView {
        role_id: tenant_id + suffix,
        name,
        description,
        permissions,
        is_system_role: true,
        tenant_id,
        created_at: now,
        updated_at: now,
    }
}

/// The four system roles that seeding gives a tenant: Administrator (the
/// whole catalog), Project Owner, Project Member and Viewer (their bundles).
pub open spec fn seeded_roles(tenant_id: Seq<char>, now: i64) -> Seq<RoleView> {
    seq![
        system_role(
            tenant_id,
            "-admin"@,
            "Administrator"@,
            "Full system access"@,
            codes(catalog()),
            now,
        ),
        system_role(
            tenant_id,
            "-owner"@,
            "Project Owner"@,
            "Full project access"@,
            codes(owner_bundle()),
            now,
        ),
        system_role(
            tenant_id,
            "-member"@,
            "Project Member"@,
            "Standard project access"@,
            codes(member_bundle()),
            now,
        ),
        system_role(
            tenant_id,
            "-viewer"@,
            "Viewer"@,
            "Read-only access"@,
            codes(viewer_bundle()),
            now,
        ),
    ]
}

/// The roles by id after adding the seeded roles.
pub open spec fn with_seeded_roles(
    m: Map<Seq<char>, RoleView>,
    tenant_id: Seq<char>,
    now: i64,
) -> Map<Seq<char>, RoleView> {
    let s = seeded_roles(tenant_id, now);
    m.insert(s[0].role_id, s[0]).insert(s[1].role_id, s[1]).insert(s[2].role_id, s[2]).insert(
        s[3].role_id,
        s[3],
    )
}

/// How seeding the system roles of `tenant_id` at `now` takes `old` to `new`
/// with result `r`: a tenant that has a system role is left as it is;
/// otherwise the four roles are added together, or none when one of their ids
/// is taken.
pub open spec fn seed_outcome(
    old: RbacService,
    new: RbacService,
    tenant_id: Seq<char>,
    now: i64,
    r: Result<(), RbacError>,
) -> bool {
    let s = seeded_roles(tenant_id, now);
    let st = old.store;
    if !st.reachable {
        r matches Err(RbacError::Internal) && new == old
    } else if has_system_role(st, tenant_id) {
        r is Ok && new == old
    } else if exists|i: int| 0 <= i < 4 && #[trigger] st.role_map().contains_key(s[i].role_id) {
        r matches Err(RbacError::DuplicateRoleId) && new == old
    } else {
        &&& r is Ok
        &&& new.wf()
        &&& new.store.reachable
        &&& new.store.role_map() == with_seeded_roles(st.role_map(), tenant_id, now)
        &&& new.store.users@ == st.users@
        &&& new.store.projects@ == st.projects@
        &&& new.store.memberships@ == st.memberships@
        &&& new.cache == old.cache
    }
}

/// A resolution outcome followed by the check of one permission.
pub open spec fn permission_checked(
    r: Result<ResolvedPermissions, RbacError>,
    code: Seq<char>,
) -> Result<ResolvedPermissions, RbacError> {
    match r {
        Ok(x) => if x.grants(code) {
            Ok(x)
        } else {
            Err(RbacError::AccessDenied)
        },
        Err(e) => Err(e),
    }
}

/// The scope a demand resolves in: the path's project when it asks for it,
/// else the global scope.
pub open spec fn demand_scope(demand: RequirePermission, path_project_id: Option<&str>) -> Option<
    Seq<char>,
> {
    if demand.extract_project_from_path {
        scope_of(path_project_id)
    } else {
        None
    }
}

/// A resolution outcome held against a route's demand.
pub open spec fn demand_checked(
    r: Result<ResolvedPermissions, RbacError>,
    demand: RequirePermission,
) -> Result<ResolvedPermissions, RbacError> {
    match r {
        Ok(x) => if demand.satisfied_by(x) {
            Ok(x)
        } else {
            Err(RbacError::AccessDenied)
        },
        Err(e) => Err(e),
    }
}

/// The role name that a lookup through the cache finds, if any.
pub open spec fn role_name_seen(svc: RbacService, role_id: Seq<char>, now: i64) -> Option<
    Seq<char>,
> {
    match svc.role_through_cache(role_id, now) {
        Some(Some(role)) => Some(role.name),
        _ => None,
    }
}

/// A role lookup through the cache leaves what any later lookup at the same
/// time finds unchanged: it only caches what the store holds.
pub proof fn lemma_lookup_preserves_view(
    old: RbacService,
    new: RbacService,
    looked_up: Seq<char>,
    now: i64,
)
    requires
        new.store == old.store,
        new.cache.reachable == old.cache.reachable,
        new.cache.role_map() == old.role_cache_after_lookup(looked_up, now),
    ensures
        forall|id: Seq<char>|
            #[trigger] new.role_through_cache(id, now) == old.role_through_cache(id, now),
{
    reveal_strlit("role:");
    assert forall|id: Seq<char>|
        #[trigger] new.role_through_cache(id, now) == old.role_through_cache(id, now) by {
        if id != looked_up {
            let a = role_key_of(id);
            let b = role_key_of(looked_up);
            assert(a != b) by {
                if a == b {
                    assert(a.subrange(5, a.len() as int) =~= id);
                    assert(b.subrange(5, b.len() as int) =~= looked_up);
                }
            }
        }
    }
}

impl RbacService {
    /// A service over the given store and cache.
    pub fn new(store: MemoryStore, cache: MemoryCache) -> (r: RbacService)
        ensures
            r.store == store,
            r.cache == cache,
    {
        RbacService { store, cache }
    }

    /// Checks the well-formedness that every operation requires.
    pub fn is_well_formed(&self) -> (r: bool)
        ensures
            r == self.wf(),
    {
        self.store.is_well_formed() && self.cache.is_well_formed()
    }

    /// The role with the given id, read through the cache; a role read from
    /// the store is cached for `ROLE_CACHE_TTL` seconds.
    pub fn get_role_by_id(&mut self, role_id: &str, now: i64) -> (r: Result<
        Option<Role>,
        RbacError,
    >)
        requires
            old(self).wf(),
        ensures
            final(self).wf(),
            final(self).store == old(self).store,
            final(self).cache.reachable == old(self).cache.reachable,
            final(self).cache.resolved_map() == old(self).cache.resolved_map(),
            final(self).cache.role_map() == old(self).role_cache_after_lookup(role_id@, now),
            match old(self).role_through_cache(role_id@, now) {
                None => r matches Err(RbacError::Internal),
                Some(None) => r matches Ok(None),
                Some(Some(v)) => r matches Ok(Some(x)) && x@ == v,
            },
    {
        let key = role_key(role_id);
        if let Some(cached) = self.cache.get_role(&key, now) {
            return Ok(Some(cached));
        }
        let id = role_id.to_string();
        match self.store.find_role(&id) {
            Err(_) => Err(RbacError::Internal),
            Ok(None) => Ok(None),
            Ok(Some(role)) => {
                self.cache.set_role(key, role.duplicate(), ROLE_CACHE_TTL, now);
                Ok(Some(role))
            },
        }
    }
    /// The role with the given id as a member of `tenant_id` may see it: a
    /// role of another tenant reads as absent, exactly like a missing one.
    pub fn get_tenant_role(&mut self, role_id: &str, tenant_id: &str, now: i64) -> (r: Result<
        Option<Role>,
        RbacError,
    >)
        requires
            old(self).wf(),
        ensures
            final(self).wf(),
            final(self).store == old(self).store,
            final(self).cache.reachable == old(self).cache.reachable,
            final(self).cache.resolved_map() == old(self).cache.resolved_map(),
            final(self).cache.role_map() == old(self).role_cache_after_lookup(role_id@, now),
            match old(self).role_through_cache(role_id@, now) {
                None => r matches Err(RbacError::Internal),
                Some(Some(v)) => if v.tenant_id == tenant_id@ {
                    r matches Ok(Some(x)) && x@ == v
                } else {
                    r matches Ok(None)
                },
                Some(None) => r matches Ok(None),
            },
    {
        match self.get_role_by_id(role_id, now)? {
            Some(role) => {
                if str_equal(role.tenant_id.as_str(), tenant_id) {
                    Ok(Some(role))
                } else {
                    Ok(None)
                }
            },
            None => Ok(None),
        }
    }

    /// The permission encodings of a non-administrator on a project: the
    /// membership's role verbatim, else the owner bundle for the project's
    /// owner, else nothing.
    fn project_permissions(&mut self, user_id: &String, project_id: &str, now: i64) -> (r: Result<
        Vec<String>,
        RbacError,
    >)
        requires
            old(self).wf(),
            old(self).store.reachable,
        ensures
            final(self).wf(),
            final(self).store == old(self).store,
            final(self).cache.reachable == old(self).cache.reachable,
            final(self).cache.resolved_map() == old(self).cache.resolved_map(),
            final(self).cache.role_map() == (if old(self).store.membership_map().contains_key(
                (user_id@, project_id@),
            ) {
                old(self).role_cache_after_lookup(
                    old(self).store.membership_map()[(user_id@, project_id@)].role_id,
                    now,
                )
            } else {
                old(self).cache.role_map()
            }),
            r matches Ok(v) && ({
                let pair = (user_id@, project_id@);
                let st = old(self).store;
                let from_role = if st.membership_map().contains_key(pair) {
                    old(self).role_through_cache(st.membership_map()[pair].role_id, now)
                } else {
                    Some(None)
                };
                if from_role is Some && from_role->0 is Some {
                    string_views(v@) == from_role->0->0.permissions
                } else if st.project_map().contains_key(project_id@)
                    && st.project_map()[project_id@].owner_id == user_id@ {
                    string_views(v@) == codes(owner_bundle())
                } else {
                    v@.len() == 0
                }
            }),
    {
        let pid = project_id.to_string();
        let membership = match self.store.find_membership(user_id, &pid) {
            Ok(m) => m,
            Err(_) => return Err(RbacError::Internal),
        };
        if let Some(m) = membership {
            let role = self.get_role_by_id(m.role_id.as_str(), now)?;
            if let Some(role) = role {
                return Ok(role.permissions);
            }
        }
        let project = match self.store.find_project(&pid) {
            Ok(p) => p,
            Err(_) => return Err(RbacError::Internal),
        };
        if let Some(p) = project {
            if p.owner_id == *user_id {
                return Ok(owner_permissions());
            }
        }
        Ok(Vec::new())
    }

    /// Resolves the permissions of a user in a project, or in the global
    /// scope when `project_id` is `None`, at time `now`.
    pub fn resolve_permissions_at(
        &mut self,
        user_id: &str,
        project_id: Option<&str>,
        now: i64,
    ) -> (r: Result<ResolvedPermissions, RbacError>)
        requires
            old(self).wf(),
        ensures
            resolve_outcome(*old(self), *final(self), user_id@, scope_of(project_id), now, r),
    {
        let key = permissions_key(user_id, project_id);
        if let Some(cached) = self.cache.get_resolved(&key, now) {
            return Ok(cached);
        }
        let uid = user_id.to_string();
        let user = match self.store.find_user(&uid) {
            Err(_) => return Err(RbacError::Internal),
            Ok(None) => return Err(RbacError::NotFound),
            Ok(Some(u)) => u,
        };
        let is_admin = user.role == UserRole::Admin;
        let permissions = if is_admin {
            get_all_permissions()
        } else {
            match project_id {
                Some(pid) => self.project_permissions(&uid, pid, now)?,
                None => user.role.global_permissions(),
            }
        };
        let scope = match project_id {
            Some(pid) => Some(pid.to_string()),
            None => None,
        };
        let resolved = ResolvedPermissions {
            user_id: uid,
            project_id: scope,
            permissions,
            is_admin,
            resolved_at: now,
        };
        assert(resolved@.project_id == scope_of(project_id));
        assert(old(self).resolution(user_id@, scope_of(project_id), now) matches Ok((perms, admin))
            && perms == resolved@.permissions && admin == is_admin);
        self.cache.set_resolved(key, resolved.duplicate(), PERMISSION_CACHE_TTL, now);
        Ok(resolved)
    }
    /// Resolves the permissions of a user in a project, or in the global
    /// scope, at the current time.
    pub fn resolve_permissions(&mut self, user_id: &str, project_id: Option<&str>) -> (r: Result<
        ResolvedPermissions,
        RbacError,
    >)
        requires
            old(self).wf(),
        ensures
            exists|now: i64|
                resolve_outcome(*old(self), *final(self), user_id@, scope_of(project_id), now, r),
    {
        let now = current_timestamp();
        self.resolve_permissions_at(user_id, project_id, now)
    }

    /// Drops the cached resolutions of a user: in one project's scope, if
    /// given, and in the global scope.
    fn invalidate_user_permissions(&mut self, user_id: &str, project_id: Option<&str>)
        requires
            old(self).wf(),
        ensures
            final(self).wf(),
            final(self).store == old(self).store,
            final(self).cache.reachable == old(self).cache.reachable,
            final(self).cache.roles@ == old(self).cache.roles@,
            final(self).cache.resolved_map() == if old(self).cache.reachable {
                old(self).cache.resolved_map().remove(
                    permissions_key_of(user_id@, scope_of(project_id)),
                ).remove(permissions_key_of(user_id@, None))
            } else {
                old(self).cache.resolved_map()
            },
    {
        if let Some(pid) = project_id {
            let key = permissions_key(user_id, Some(pid));
            self.cache.delete_resolved(&key);
        }
        let global = permissions_key(user_id, None);
        self.cache.delete_resolved(&global);
        proof {
            if project_id is None {
                assert(old(self).cache.resolved_map().remove(permissions_key_of(user_id@, None))
                    =~= old(self).cache.resolved_map().remove(
                    permissions_key_of(user_id@, None),
                ).remove(permissions_key_of(user_id@, None)));
            }
        }
    }

    /// Creates a role under the given id at `now`, after checking the name
    /// and description bounds and that every permission is in the catalog.
    pub fn create_role_with_id(
        &mut self,
        dto: CreateRoleDto,
        tenant_id: &str,
        role_id: String,
        now: i64,
    ) -> (r: Result<Role, RbacError>)
        requires
            old(self).wf(),
        ensures
            create_outcome(*old(self), *final(self), dto, tenant_id@, role_id@, now, r),
    {
        if !dto.validate() {
            return Err(RbacError::InvalidField);
        }
        let bad = invalid_permissions(&dto.permissions);
        if bad.len() > 0 {
            return Err(RbacError::InvalidPermissions(bad));
        }
        match self.store.find_role(&role_id) {
            Err(_) => return Err(RbacError::Internal),
            Ok(Some(_)) => return Err(RbacError::DuplicateRoleId),
            Ok(None) => {},
        }
        let ghost d = dto;
        let role = Role {
            role_id,
            name: dto.name,
            description: dto.description,
            permissions: dto.permissions,
            is_system_role: false,
            tenant_id: tenant_id.to_string(),
            created_at: now,
            updated_at: now,
        };
        assert(role@ == created_role(d, tenant_id@, role@.role_id, now));
        let stored = role.duplicate();
        let _ = self.store.insert_role(stored);
        let key = role_key(role.role_id.as_str());
        self.cache.delete_role(&key);
        Ok(role)
    }

    /// Creates a role under a fresh random id at `now`.
    pub fn create_role(&mut self, dto: CreateRoleDto, tenant_id: &str, now: i64) -> (r: Result<
        Role,
        RbacError,
    >)
        requires
            old(self).wf(),
        ensures
            exists|role_id: Seq<char>|
                create_outcome(*old(self), *final(self), dto, tenant_id@, role_id, now, r),
    {
        let role_id = fresh_id();
        self.create_role_with_id(dto, tenant_id, role_id, now)
    }
    /// Drops the cached resolutions of every holder of a role. When the
    /// holders cannot be listed nothing is dropped; the entries then expire.
    fn invalidate_permissions_for_role(&mut self, role_id: &String)
        requires
            old(self).wf(),
        ensures
            final(self).wf(),
            final(self).store == old(self).store,
            final(self).cache.reachable == old(self).cache.reachable,
            final(self).cache.roles@ == old(self).cache.roles@,
            final(self).cache.resolved_map() == if old(self).store.reachable
                && old(self).cache.reachable {
                old(self).cache.resolved_map().remove_keys(holder_keys(old(self).store, role_id@))
            } else {
                old(self).cache.resolved_map()
            },
    {
        let ms = match self.store.memberships_with_role(role_id) {
            Ok(ms) => ms,
            Err(_) => return,
        };
        let ghost views = ms@.map_values(|m: ProjectMembership| m@);
        let ghost start = self.cache.resolved_map();
        let mut i: usize = 0;
        while i < ms.len()
            invariant
                i <= ms@.len(),
                views == ms@.map_values(|m: ProjectMembership| m@),
                self.wf(),
                self.store == old(self).store,
                self.cache.reachable == old(self).cache.reachable,
                self.cache.roles@ == old(self).cache.roles@,
                start == old(self).cache.resolved_map(),
                self.cache.resolved_map() == if self.cache.reachable {
                    start.remove_keys(membership_keys(views, i as int))
                } else {
                    start
                },
            decreases ms.len() - i,
        {
            let ghost before = self.cache.resolved_map();
            let m = &ms[i];
            self.invalidate_user_permissions(m.user_id.as_str(), Some(m.project_id.as_str()));
            proof {
                if self.cache.reachable {
                    let v = views[i as int];
                    let a = permissions_key_of(v.user_id, Some(v.project_id));
                    let b = permissions_key_of(v.user_id, None);
                    assert forall|k: Seq<char>|
                        membership_keys(views, i + 1).contains(k) <==> (membership_keys(
                            views,
                            i as int,
                        ).contains(k) || k == a || k == b) by {
                        if membership_keys(views, i + 1).contains(k) {
                            let j = choose|j: int|
                                0 <= j < i + 1 && (k == permissions_key_of(
                                    (#[trigger] views[j]).user_id,
                                    Some(views[j].project_id),
                                ) || k == permissions_key_of(views[j].user_id, None));
                            if j < i {
                                assert(membership_keys(views, i as int).contains(k));
                            }
                        }
                        if membership_keys(views, i as int).contains(k) {
                            let j = choose|j: int|
                                0 <= j < i && (k == permissions_key_of(
                                    (#[trigger] views[j]).user_id,
                                    Some(views[j].project_id),
                                ) || k == permissions_key_of(views[j].user_id, None));
                            assert(0 <= j < i + 1);
                        }
                        if k == a || k == b {
                            assert(0 <= i < i + 1 && views[i as int] == views[i as int]);
                        }
                    }
                    assert(self.cache.resolved_map() =~= start.remove_keys(
                        membership_keys(views, i + 1),
                    ));
                }
            }
            i = i + 1;
        }
        proof {
            if self.cache.reachable {
                let st = old(self).store;
                let all = st.membership_views();
                lemma_filter_map_values(all, by_member_pair(), holds_role(role_id@));
                assert forall|k: Seq<char>|
                    membership_keys(views, views.len() as int).contains(k) <==> holder_keys(
                        st,
                        role_id@,
                    ).contains(k) by {
                    if membership_keys(views, views.len() as int).contains(k) {
                        let j = choose|j: int|
                            0 <= j < views.len() && (k == permissions_key_of(
                                (#[trigger] views[j]).user_id,
                                Some(views[j].project_id),
                            ) || k == permissions_key_of(views[j].user_id, None));
                        let pair = (views[j].user_id, views[j].project_id);
                        assert(by_member_pair()(views[j]) == pair);
                        assert(st.membership_map().contains_key(pair));
                    }
                    if holder_keys(st, role_id@).contains(k) {
                        let pair = choose|pair: (Seq<char>, Seq<char>)|
                            #[trigger] st.membership_map().contains_key(pair)
                                && st.membership_map()[pair].role_id == role_id@ && (k
                                == permissions_key_of(pair.0, Some(pair.1)) || k
                                == permissions_key_of(pair.0, None));
                        let m = st.membership_map()[pair];
                        assert(holds_role(role_id@)(m));
                        assert(views.contains(m));
                        let j = choose|j: int| 0 <= j < views.len() && views[j] == m;
                        let w = choose|w: int|
                            0 <= w < all.len() && #[trigger] by_member_pair()(all[w]) == pair;
                        assert(m == all[w]);
                        assert(views[j].user_id == pair.0 && views[j].project_id == pair.1);
                    }
                }
                assert(membership_keys(views, views.len() as int) =~= holder_keys(st, role_id@));
            }
        }
    }
    /// Changes the name, description or permissions of a custom role of the
    /// tenant at `now`.
    pub fn update_role(
        &mut self,
        role_id: &str,
        dto: UpdateRoleDto,
        tenant_id: &str,
        now: i64,
    ) -> (r: Result<Role, RbacError>)
        requires
            old(self).wf(),
        ensures
            update_outcome(*old(self), *final(self), role_id@, dto, tenant_id@, now, r),
    {
        if !dto.validate() {
            return Err(RbacError::InvalidField);
        }
        let id = role_id.to_string();
        let existing = match self.store.find_role(&id) {
            Err(_) => return Err(RbacError::Internal),
            Ok(None) => return Err(RbacError::NotFound),
            Ok(Some(role)) => role,
        };
        if existing.is_system_role {
            return Err(RbacError::SystemRoleImmutable);
        }
        if !str_equal(existing.tenant_id.as_str(), tenant_id) {
            return Err(RbacError::AccessDenied);
        }
        if let Some(perms) = &dto.permissions {
            let bad = invalid_permissions(perms);
            if bad.len() > 0 {
                return Err(RbacError::InvalidPermissions(bad));
            }
        }
        let ghost d = dto;
        let role = Role {
            role_id: existing.role_id,
            name: match dto.name {
                Some(n) => n,
                None => existing.name,
            },
            description: match dto.description {
                Some(desc) => desc,
                None => existing.description,
            },
            permissions: match dto.permissions {
                Some(p) => p,
                None => existing.permissions,
            },
            is_system_role: existing.is_system_role,
            tenant_id: existing.tenant_id,
            created_at: existing.created_at,
            updated_at: now,
        };
        assert(role@ == updated_role(old(self).store.role_map()[role_id@], d, now));
        let _ = self.store.replace_role(role.duplicate());
        let key = role_key(role_id);
        self.cache.delete_role(&key);
        let ghost mid = *self;
        self.invalidate_permissions_for_role(&id);
        assert(mid.store.membership_map() == old(self).store.membership_map());
        assert(holder_keys(mid.store, role_id@) == holder_keys(old(self).store, role_id@));
        Ok(role)
    }
    /// Deletes a custom role of the tenant that no membership references.
    pub fn delete_role(&mut self, role_id: &str, tenant_id: &str) -> (r: Result<(), RbacError>)
        requires
            old(self).wf(),
        ensures
            delete_outcome(*old(self), *final(self), role_id@, tenant_id@, r),
    {
        let id = role_id.to_string();
        let role = match self.store.find_role(&id) {
            Err(_) => return Err(RbacError::Internal),
            Ok(None) => return Err(RbacError::NotFound),
            Ok(Some(role)) => role,
        };
        if role.is_system_role {
            return Err(RbacError::SystemRoleImmutable);
        }
        if !str_equal(role.tenant_id.as_str(), tenant_id) {
            return Err(RbacError::AccessDenied);
        }
        let holders = match self.store.memberships_with_role(&id) {
            Err(_) => return Err(RbacError::Internal),
            Ok(ms) => ms,
        };
        if holders.len() > 0 {
            return Err(RbacError::RoleInUse(holders.len()));
        }
        let _ = self.store.remove_role(&id);
        let key = role_key(role_id);
        self.cache.delete_role(&key);
        Ok(())
    }
    /// Gives an existing membership a new role of the tenant at `now`,
    /// keeping its id and creation time.
    fn update_membership(
        &mut self,
        existing: ProjectMembership,
        role_id: &String,
        tenant_id: &str,
        now: i64,
    ) -> (r: ProjectMembership)
        requires
            old(self).wf(),
            old(self).store.reachable,
            old(self).store.membership_map().contains_key(
                (existing@.user_id, existing@.project_id),
            ),
            old(self).store.membership_map()[(existing@.user_id, existing@.project_id)]
                == existing@,
        ensures
            final(self).wf(),
            final(self).store.reachable,
            final(self).store.membership_map() == old(self).store.membership_map().insert(
                (existing@.user_id, existing@.project_id),
                r@,
            ),
            r@ == (MembershipView {
                role_id: role_id@,
                tenant_id: tenant_id@,
                updated_at: now,
                ..existing@
            }),
            final(self).store.users@ == old(self).store.users@,
            final(self).store.projects@ == old(self).store.projects@,
            final(self).store.roles@ == old(self).store.roles@,
            final(self).cache == old(self).cache,
    {
        let m = ProjectMembership {
            membership_id: existing.membership_id,
            user_id: existing.user_id,
            project_id: existing.project_id,
            role_id: role_id.clone(),
            tenant_id: tenant_id.to_string(),
            created_at: existing.created_at,
            updated_at: now,
        };
        let _ = self.store.replace_membership(m.duplicate());
        m
    }

    /// Gives a user a role on a project of the tenant at `now`, a new
    /// membership taking the id `membership_id`.
    pub fn assign_role_with_id(
        &mut self,
        dto: AssignRoleDto,
        tenant_id: &str,
        membership_id: String,
        now: i64,
    ) -> (r: Result<ProjectMembership, RbacError>)
        requires
            old(self).wf(),
        ensures
            assign_outcome(*old(self), *final(self), dto, tenant_id@, membership_id@, now, r),
    {
        let role = match self.store.find_role(&dto.role_id) {
            Err(_) => return Err(RbacError::Internal),
            Ok(None) => return Err(RbacError::NotFound),
            Ok(Some(role)) => role,
        };
        if !str_equal(role.tenant_id.as_str(), tenant_id) {
            return Err(RbacError::AccessDenied);
        }
        let project = match self.store.find_project(&dto.project_id) {
            Err(_) => return Err(RbacError::Internal),
            Ok(None) => return Err(RbacError::NotFound),
            Ok(Some(project)) => project,
        };
        if !str_equal(project.tenant_id.as_str(), tenant_id) {
            return Err(RbacError::AccessDenied);
        }
        match self.store.find_user(&dto.user_id) {
            Err(_) => return Err(RbacError::Internal),
            Ok(None) => return Err(RbacError::NotFound),
            Ok(Some(_)) => {},
        }
        let existing = match self.store.find_membership(&dto.user_id, &dto.project_id) {
            Err(_) => return Err(RbacError::Internal),
            Ok(m) => m,
        };
        let membership = match existing {
            Some(m) => self.update_membership(m, &dto.role_id, tenant_id, now),
            None => {
                let m = ProjectMembership {
                    membership_id,
                    user_id: dto.user_id.clone(),
                    project_id: dto.project_id.clone(),
                    role_id: dto.role_id.clone(),
                    tenant_id: tenant_id.to_string(),
                    created_at: now,
                    updated_at: now,
                };
                let _ = self.store.insert_membership(m.duplicate());
                m
            },
        };
        self.invalidate_user_permissions(dto.user_id.as_str(), Some(dto.project_id.as_str()));
        Ok(membership)
    }

    /// Gives a user a role on a project of the tenant at `now`; a new
    /// membership takes a fresh random id.
    pub fn assign_role(&mut self, dto: AssignRoleDto, tenant_id: &str, now: i64) -> (r: Result<
        ProjectMembership,
        RbacError,
    >)
        requires
            old(self).wf(),
        ensures
            exists|membership_id: Seq<char>|
                assign_outcome(*old(self), *final(self), dto, tenant_id@, membership_id, now, r),
    {
        let membership_id = fresh_id();
        self.assign_role_with_id(dto, tenant_id, membership_id, now)
    }

    /// Removes the membership of a user on a project of the tenant.
    pub fn revoke_role(&mut self, user_id: &str, project_id: &str, tenant_id: &str) -> (r: Result<
        (),
        RbacError,
    >)
        requires
            old(self).wf(),
        ensures
            revoke_outcome(*old(self), *final(self), user_id@, project_id@, tenant_id@, r),
    {
        let u = user_id.to_string();
        let p = project_id.to_string();
        let t = tenant_id.to_string();
        match self.store.remove_membership(&u, &p, &t) {
            Err(_) => Err(RbacError::Internal),
            Ok(false) => Err(RbacError::NotFound),
            Ok(true) => {
                self.invalidate_user_permissions(user_id, Some(project_id));
                Ok(())
            },
        }
    }
    /// A system role of the tenant.
    fn build_system_role(
        tenant_id: &str,
        suffix: &str,
        name: &str,
        description: &str,
        permissions: Vec<String>,
        now: i64,
    ) -> (r: Role)
        ensures
            r@ == system_role(
                tenant_id@,
                suffix@,
                name@,
                description@,
                string_views(permissions@),
                now,
            ),
    {
        let mut role_id = tenant_id.to_string();
        role_id.append(suffix);
        Role {
            role_id,
            name: name.to_string(),
            description: description.to_string(),
            permissions,
            is_system_role: true,
            tenant_id: tenant_id.to_string(),
            created_at: now,
            updated_at: now,
        }
    }

    /// Whether a role with this id is stored (the store being reachable).
    fn role_id_taken(&self, role_id: &String) -> (r: bool)
        requires
            self.wf(),
            self.store.reachable,
        ensures
            r == self.store.role_map().contains_key(role_id@),
    {
        match self.store.find_role(role_id) {
            Ok(Some(_)) => true,
            _ => false,
        }
    }

    /// Seeds the four system roles of a tenant at `now`, once: a tenant that
    /// already has a system role is left as it is.
    pub fn initialize_system_roles(&mut self, tenant_id: &str, now: i64) -> (r: Result<
        (),
        RbacError,
    >)
        requires
            old(self).wf(),
        ensures
            seed_outcome(*old(self), *final(self), tenant_id@, now, r),
    {
        let t = tenant_id.to_string();
        let existing = match self.store.roles_of_tenant(&t) {
            Err(_) => return Err(RbacError::Internal),
            Ok(roles) => roles,
        };
        let ghost views = existing@.map_values(|x: Role| x@);
        proof {
            lemma_filter_map_values(self.store.role_views(), by_role_id(), in_tenant(t@));
        }
        let mut i: usize = 0;
        while i < existing.len()
            invariant
                i <= existing@.len(),
                views == existing@.map_values(|x: Role| x@),
                views == self.store.role_views().filter(in_tenant(t@)),
                self.wf(),
                self.store.reachable,
                *self == *old(self),
                t@ == tenant_id@,
                forall|j: int| 0 <= j < i ==> !(#[trigger] existing@[j]).is_system_role,
            decreases existing.len() - i,
        {
            if existing[i].is_system_role {
                proof {
                    lemma_filter_map_values(self.store.role_views(), by_role_id(), in_tenant(t@));
                    let x = views[i as int];
                    assert(x == self.store.role_views().filter(in_tenant(t@))[i as int]);
                    assert(self.store.role_map().contains_key(x.role_id));
                    assert(has_system_role(self.store, t@));
                }
                return Ok(());
            }
            i = i + 1;
        }
        proof {
            if has_system_role(self.store, t@) {
                let k = choose|k: Seq<char>|
                    #[trigger] self.store.role_map().contains_key(k)
                        && self.store.role_map()[k].tenant_id == t@
                        && self.store.role_map()[k].is_system_role;
                let x = self.store.role_map()[k];
                assert(in_tenant(t@)(x));
                assert(views.contains(x));
                let j = choose|j: int| 0 <= j < views.len() && views[j] == x;
                assert(!existing@[j].is_system_role);
            }
        }
        let admin = Self::build_system_role(
            tenant_id,
            "-admin",
            "Administrator",
            "Full system access",
            get_all_permissions(),
            now,
        );
        let owner = Self::build_system_role(
            tenant_id,
            "-owner",
            "Project Owner",
            "Full project access",
            owner_permissions(),
            now,
        );
        let member = Self::build_system_role(
            tenant_id,
            "-member",
            "Project Member",
            "Standard project access",
            member_permissions(),
            now,
        );
        let viewer = Self::build_system_role(
            tenant_id,
            "-viewer",
            "Viewer",
            "Read-only access",
            viewer_permissions(),
            now,
        );
        let ghost seeded = seeded_roles(t@, now);
        assert(admin@ == seeded[0] && owner@ == seeded[1]);
        assert(member@ == seeded[2] && viewer@ == seeded[3]);
        proof {
            reveal_strlit("-admin");
            reveal_strlit("-owner");
            reveal_strlit("-member");
            reveal_strlit("-viewer");
            let n = t@.len() as int;
            assert(seeded[0].role_id[n + 1] == 'a');
            assert(seeded[1].role_id[n + 1] == 'o');
            assert(seeded[2].role_id[n + 1] == 'm');
            assert(seeded[3].role_id[n + 1] == 'v');
        }
        if self.role_id_taken(&admin.role_id) || self.role_id_taken(&owner.role_id)
            || self.role_id_taken(&member.role_id) || self.role_id_taken(&viewer.role_id) {
            proof {
                if self.store.role_map().contains_key(seeded[0].role_id) {
                    assert(0 <= 0int < 4 && self.store.role_map().contains_key(seeded[0].role_id));
                } else if self.store.role_map().contains_key(seeded[1].role_id) {
                    assert(0 <= 1int < 4 && self.store.role_map().contains_key(seeded[1].role_id));
                } else if self.store.role_map().contains_key(seeded[2].role_id) {
                    assert(0 <= 2int < 4 && self.store.role_map().contains_key(seeded[2].role_id));
                } else {
                    assert(0 <= 3int < 4 && self.store.role_map().contains_key(seeded[3].role_id));
                }
            }
            return Err(RbacError::DuplicateRoleId);
        }
        let _ = self.store.insert_role(admin);
        let _ = self.store.insert_role(owner);
        let _ = self.store.insert_role(member);
        let _ = self.store.insert_role(viewer);
        Ok(())
    }

    /// Resolves a user's permissions at the current time and checks one
    /// permission; a resolution failure is passed on, never a grant.
    pub fn check_permission(
        &mut self,
        user_id: &str,
        project_id: Option<&str>,
        permission: Permission,
    ) -> (r: Result<ResolvedPermissions, RbacError>)
        requires
            old(self).wf(),
        ensures
            exists|now: i64, resolved: Result<ResolvedPermissions, RbacError>|
                resolve_outcome(*old(self), *final(self), user_id@, scope_of(project_id), now, resolved)
                    && r == permission_checked(resolved, permission_code(permission)),
    {
        let resolved = self.resolve_permissions(user_id, project_id);
        let ghost before = resolved;
        match resolved {
            Err(e) => Err(e),
            Ok(x) => {
                if x.has_permission(permission) {
                    Ok(x)
                } else {
                    Err(RbacError::AccessDenied)
                }
            },
        }
    }

    /// Resolves a user's permissions on a project at the current time and
    /// requires read access to it (administrators always have it).
    pub fn verify_project_access(&mut self, user_id: &str, project_id: &str, tenant_id: &str) -> (r:
        Result<ResolvedPermissions, RbacError>)
        requires
            old(self).wf(),
        ensures
            exists|now: i64, resolved: Result<ResolvedPermissions, RbacError>|
                resolve_outcome(*old(self), *final(self), user_id@, Some(project_id@), now, resolved)
                    && r == permission_checked(resolved, permission_code(Permission::ProjectRead)),
    {
        let resolved = self.resolve_permissions(user_id, Some(project_id));
        match resolved {
            Err(e) => Err(e),
            Ok(x) => {
                if x.is_admin {
                    return Ok(x);
                }
                if x.has_permission(Permission::ProjectRead) {
                    Ok(x)
                } else {
                    Err(RbacError::AccessDenied)
                }
            },
        }
    }
    /// The roles of a tenant.
    pub fn get_tenant_roles(&self, tenant_id: &str) -> (r: Result<Vec<Role>, RbacError>)
        ensures
            !self.store.reachable ==> r matches Err(RbacError::Internal),
            self.store.reachable ==> (r matches Ok(v) && v@.map_values(|x: Role| x@)
                == self.store.role_views().filter(in_tenant(tenant_id@))),
    {
        match self.store.roles_of_tenant(&tenant_id.to_string()) {
            Ok(v) => Ok(v),
            Err(_) => Err(RbacError::Internal),
        }
    }

    /// The membership of a user on a project, if any.
    pub fn get_membership(&self, user_id: &str, project_id: &str) -> (r: Result<
        Option<ProjectMembership>,
        RbacError,
    >)
        requires
            self.wf(),
        ensures
            !self.store.reachable ==> r matches Err(RbacError::Internal),
            self.store.reachable ==> match r {
                Ok(Some(m)) => self.store.membership_map().contains_key((user_id@, project_id@))
                    && self.store.membership_map()[(user_id@, project_id@)] == m@,
                Ok(None) => !self.store.membership_map().contains_key((user_id@, project_id@)),
                Err(_) => false,
            },
    {
        match self.store.find_membership(&user_id.to_string(), &project_id.to_string()) {
            Ok(m) => Ok(m),
            Err(_) => Err(RbacError::Internal),
        }
    }

    /// The memberships of a project.
    pub fn get_project_memberships(&self, project_id: &str) -> (r: Result<
        Vec<ProjectMembership>,
        RbacError,
    >)
        ensures
            !self.store.reachable ==> r matches Err(RbacError::Internal),
            self.store.reachable ==> (r matches Ok(v) && v@.map_values(|m: ProjectMembership| m@)
                == self.store.membership_views().filter(in_project(project_id@))),
    {
        match self.store.memberships_in_project(&project_id.to_string()) {
            Ok(v) => Ok(v),
            Err(_) => Err(RbacError::Internal),
        }
    }

    /// The memberships of a user.
    pub fn get_user_memberships(&self, user_id: &str) -> (r: Result<Vec<ProjectMembership>, RbacError>)
        ensures
            !self.store.reachable ==> r matches Err(RbacError::Internal),
            self.store.reachable ==> (r matches Ok(v) && v@.map_values(|m: ProjectMembership| m@)
                == self.store.membership_views().filter(of_user(user_id@))),
    {
        match self.store.memberships_of_user(&user_id.to_string()) {
            Ok(v) => Ok(v),
            Err(_) => Err(RbacError::Internal),
        }
    }
    /// Decides a request to a guarded route at the current time: the caller
    /// must be authenticated, and the resolution, in the path's project scope
    /// when the demand asks for it, must meet the demand.
    pub fn authorize(
        &mut self,
        demand: &RequirePermission,
        user_id: Option<&str>,
        path_project_id: Option<&str>,
    ) -> (r: Result<ResolvedPermissions, RbacError>)
        requires
            old(self).wf(),
        ensures
            user_id is None ==> (r matches Err(RbacError::Unauthenticated) && *final(self)
                == *old(self)),
            user_id matches Some(u) ==> exists|now: i64, resolved: Result<ResolvedPermissions, RbacError>|
                #[trigger] resolve_outcome(
                    *old(self),
                    *final(self),
                    u@,
                    demand_scope(*demand, path_project_id),
                    now,
                    resolved,
                ) && r == demand_checked(resolved, *demand),
    {
        let user_id = match user_id {
            Some(u) => u,
            None => return Err(RbacError::Unauthenticated),
        };
        let scope = demand.scope(path_project_id);
        match self.resolve_permissions(user_id, scope) {
            Err(e) => Err(e),
            Ok(x) => {
                if demand.is_satisfied_by(&x) {
                    Ok(x)
                } else {
                    Err(RbacError::AccessDenied)
                }
            },
        }
    }
    /// The responses for a list of memberships, each with the name of its
    /// role when the role can be read (through the cache) at `now`.
    pub fn membership_responses(&mut self, memberships: Vec<ProjectMembership>, now: i64) -> (r: Vec<
        ProjectMembershipResponse,
    >)
        requires
            old(self).wf(),
        ensures
            final(self).wf(),
            final(self).store == old(self).store,
            final(self).cache.reachable == old(self).cache.reachable,
            final(self).cache.resolved_map() == old(self).cache.resolved_map(),
            r@.len() == memberships@.len(),
            forall|i: int|
                0 <= i < r@.len() ==> {
                    let m = memberships@[i];
                    let x = #[trigger] r@[i];
                    &&& x.membership_id == m.membership_id
                    &&& x.user_id == m.user_id
                    &&& x.project_id == m.project_id
                    &&& x.role_id == m.role_id
                    &&& x.created_at == m.created_at
                    &&& opt_view(x.role_name) == role_name_seen(*old(self), m.role_id@, now)
                },
    {
        let mut out: Vec<ProjectMembershipResponse> = Vec::new();
        let mut i: usize = 0;
        while i < memberships.len()
            invariant
                i <= memberships@.len(),
                out@.len() == i,
                self.wf(),
                self.store == old(self).store,
                self.cache.reachable == old(self).cache.reachable,
                self.cache.resolved_map() == old(self).cache.resolved_map(),
                forall|id: Seq<char>|
                    #[trigger] self.role_through_cache(id, now) == old(self).role_through_cache(id, now),
                forall|k: int|
                    0 <= k < i ==> {
                        let m = memberships@[k];
                        let x = #[trigger] out@[k];
                        &&& x.membership_id == m.membership_id
                        &&& x.user_id == m.user_id
                        &&& x.project_id == m.project_id
                        &&& x.role_id == m.role_id
                        &&& x.created_at == m.created_at
                        &&& opt_view(x.role_name) == role_name_seen(*old(self), m.role_id@, now)
                    },
            decreases memberships.len() - i,
        {
            let m = &memberships[i];
            let ghost before = *self;
            let role_name = match self.get_role_by_id(m.role_id.as_str(), now) {
                Ok(Some(role)) => Some(role.name),
                _ => None,
            };
            proof {
                lemma_lookup_preserves_view(before, *self, m.role_id@, now);
            }
            out.push(
                ProjectMembershipResponse {
                    membership_id: m.membership_id.clone(),
                    user_id: m.user_id.clone(),
                    project_id: m.project_id.clone(),
                    role_id: m.role_id.clone(),
                    role_name,
                    created_at: m.created_at,
                },
            );
            i = i + 1;
        }
        out
    }
    /// Drops every cached resolution and role, so that the next reads go to
    /// the store.
    pub fn invalidate_all_caches(&mut self)
        requires
            old(self).wf(),
        ensures
            final(self).wf(),
            final(self).store == old(self).store,
            final(self).cache.reachable == old(self).cache.reachable,
            old(self).cache.reachable ==> final(self).cache.resolved_map().is_empty()
                && final(self).cache.role_map().is_empty(),
            !old(self).cache.reachable ==> final(self).cache == old(self).cache,
    {
        self.cache.clear();
    }
}

} // verus!
