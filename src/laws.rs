use vstd::prelude::*;

use crate::cache::{permissions_key_of, role_key_of};
use crate::catalog::{codes, owner_bundle, permission_code, string_views, Permission, UserRole};
use crate::dto::{AssignRoleDto, UpdateRoleDto};
use crate::error::{kind_of, ErrorKind, RbacError};
use crate::keyed::lemma_filter_map_values;
use crate::records::{ProjectMembership, Role};
use crate::resolved::ResolvedPermissions;
use crate::service::{
    assign_outcome, delete_outcome, has_system_role, holder_keys, resolve_outcome, revoke_outcome,
    role_member_count, seed_outcome, seeded_roles, system_role_ids, update_outcome, RbacService,
};
use crate::store::{by_member_pair, holds_role};

verus! {

/// No live cached copy of role `role_id` differs from the stored role.
pub open spec fn role_cache_fresh(svc: RbacService, role_id: Seq<char>, now: i64) -> bool {
    svc.cache.live_role(role_key_of(role_id), now) matches Some(v) ==> svc.store.role_map().contains_key(
        role_id,
    ) && v == svc.store.role_map()[role_id]
}

/// An administrator's resolution, in a project's scope or the global one,
/// grants every permission of the catalog once no cached outcome stands in
/// for it.
pub proof fn lemma_admin_grants_everything(
    old: RbacService,
    new: RbacService,
    user_id: Seq<char>,
    project_id: Option<Seq<char>>,
    now: i64,
    r: Result<ResolvedPermissions, RbacError>,
)
    requires
        old.store.reachable,
        old.store.user_map().contains_key(user_id),
        old.store.user_map()[user_id].role == UserRole::Admin,
        old.cache.live_resolved(permissions_key_of(user_id, project_id), now) is None,
        resolve_outcome(old, new, user_id, project_id, now, r),
    ensures
        r matches Ok(x) && x.is_admin && forall|p: Permission| #[trigger] x.grants(permission_code(p)),
{
}

/// After a role is assigned to a user who is not an administrator, the
/// user's resolution on that project yields exactly the role's permissions,
/// once no stale copy of the role is cached.
pub proof fn lemma_assigned_role_resolves(
    old: RbacService,
    mid: RbacService,
    new: RbacService,
    dto: AssignRoleDto,
    tenant_id: Seq<char>,
    membership_id: Seq<char>,
    assigned_at: i64,
    assigned: Result<ProjectMembership, RbacError>,
    now: i64,
    r: Result<ResolvedPermissions, RbacError>,
)
    requires
        assign_outcome(old, mid, dto, tenant_id, membership_id, assigned_at, assigned),
        assigned is Ok,
        old.store.user_map()[dto.user_id@].role != UserRole::Admin,
        role_cache_fresh(mid, dto.role_id@, now),
        resolve_outcome(mid, new, dto.user_id@, Some(dto.project_id@), now, r),
    ensures
        r matches Ok(x) && !x.is_admin && x.permission_set()
            == old.store.role_map()[dto.role_id@].permissions.to_set(),
{
    let pair = (dto.user_id@, dto.project_id@);
    assert(mid.store.membership_map()[pair].role_id == dto.role_id@);
    assert(mid.store.user_map() == old.store.user_map());
    assert(mid.store.role_map() == old.store.role_map());
    let key = permissions_key_of(dto.user_id@, Some(dto.project_id@));
    assert(mid.cache.live_resolved(key, now) is None);
}

/// After a user's membership on a project is revoked, a user who is not an
/// administrator resolves to the owner bundle there if the user owns the
/// project, and to nothing otherwise.
pub proof fn lemma_revoked_falls_back(
    old: RbacService,
    mid: RbacService,
    new: RbacService,
    user_id: Seq<char>,
    project_id: Seq<char>,
    tenant_id: Seq<char>,
    revoked: Result<(), RbacError>,
    now: i64,
    r: Result<ResolvedPermissions, RbacError>,
)
    requires
        revoke_outcome(old, mid, user_id, project_id, tenant_id, revoked),
        revoked is Ok,
        old.store.user_map().contains_key(user_id),
        old.store.user_map()[user_id].role != UserRole::Admin,
        resolve_outcome(mid, new, user_id, Some(project_id), now, r),
    ensures
        r matches Ok(x) && !x.is_admin && x@.permissions == if old.store.project_map().contains_key(
            project_id,
        ) && old.store.project_map()[project_id].owner_id == user_id {
            codes(owner_bundle())
        } else {
            Seq::empty()
        },
{
    assert(!mid.store.membership_map().contains_key((user_id, project_id)));
    assert(mid.store.user_map() == old.store.user_map());
    assert(mid.store.project_map() == old.store.project_map());
    assert(mid.cache.live_resolved(permissions_key_of(user_id, Some(project_id)), now) is None);
}

/// After the permissions of a role are replaced, every user who is not an
/// administrator and holds the role on a project resolves there to the new
/// permissions.
pub proof fn lemma_updated_role_propagates(
    old: RbacService,
    mid: RbacService,
    new: RbacService,
    role_id: Seq<char>,
    dto: UpdateRoleDto,
    tenant_id: Seq<char>,
    updated_at: i64,
    updated: Result<Role, RbacError>,
    user_id: Seq<char>,
    project_id: Seq<char>,
    now: i64,
    r: Result<ResolvedPermissions, RbacError>,
)
    requires
        update_outcome(old, mid, role_id, dto, tenant_id, updated_at, updated),
        updated is Ok,
        dto.permissions is Some,
        old.store.membership_map().contains_key((user_id, project_id)),
        old.store.membership_map()[(user_id, project_id)].role_id == role_id,
        old.store.user_map().contains_key(user_id),
        old.store.user_map()[user_id].role != UserRole::Admin,
        resolve_outcome(mid, new, user_id, Some(project_id), now, r),
    ensures
        r matches Ok(x) && !x.is_admin && x@.permissions == string_views(dto.permissions->0@),
{
    let pair = (user_id, project_id);
    assert(mid.store.membership_map() == old.store.membership_map());
    assert(mid.store.user_map() == old.store.user_map());
    let key = permissions_key_of(user_id, Some(project_id));
    assert(holder_keys(old.store, role_id).contains(key));
    assert(mid.cache.live_resolved(key, now) is None);
    assert(mid.cache.live_role(role_key_of(role_id), now) is None);
}

/// Deleting a role of the tenant that a membership still references fails
/// with a conflict that reports how many memberships reference it, and
/// changes nothing.
pub proof fn lemma_delete_in_use_conflicts(
    old: RbacService,
    new: RbacService,
    role_id: Seq<char>,
    tenant_id: Seq<char>,
    user_id: Seq<char>,
    project_id: Seq<char>,
    r: Result<(), RbacError>,
)
    requires
        old.wf(),
        old.store.reachable,
        old.store.role_map().contains_key(role_id),
        old.store.role_map()[role_id].tenant_id == tenant_id,
        old.store.membership_map().contains_key((user_id, project_id)),
        old.store.membership_map()[(user_id, project_id)].role_id == role_id,
        delete_outcome(old, new, role_id, tenant_id, r),
    ensures
        r matches Err(e) && kind_of(e) == ErrorKind::Conflict,
        old.store.role_map()[role_id].is_system_role || (r matches Err(RbacError::RoleInUse(n))
            && n == role_member_count(old.store, role_id) && n >= 1),
        new == old,
{
    let all = old.store.membership_views();
    lemma_filter_map_values(all, by_member_pair(), holds_role(role_id));
    let m = old.store.membership_map()[(user_id, project_id)];
    assert(holds_role(role_id)(m));
    assert(all.filter(holds_role(role_id)).contains(m));
    assert(role_member_count(old.store, role_id) > 0);
}

/// Seeding the system roles of a tenant that has none, and seeding them
/// again, leaves the tenant with exactly the four system roles.
pub proof fn lemma_seeding_is_idempotent(
    old: RbacService,
    mid: RbacService,
    new: RbacService,
    tenant_id: Seq<char>,
    first_at: i64,
    first: Result<(), RbacError>,
    second_at: i64,
    second: Result<(), RbacError>,
)
    requires
        old.wf(),
        !has_system_role(old.store, tenant_id),
        seed_outcome(old, mid, tenant_id, first_at, first),
        first is Ok,
        seed_outcome(mid, new, tenant_id, second_at, second),
    ensures
        second is Ok,
        new == mid,
        system_role_ids(new.store, tenant_id) == set![
            seeded_roles(tenant_id, first_at)[0].role_id,
            seeded_roles(tenant_id, first_at)[1].role_id,
            seeded_roles(tenant_id, first_at)[2].role_id,
            seeded_roles(tenant_id, first_at)[3].role_id,
        ],
        system_role_ids(new.store, tenant_id).len() == 4,
{
    let s = seeded_roles(tenant_id, first_at);
    reveal_strlit("-admin");
    reveal_strlit("-owner");
    reveal_strlit("-member");
    reveal_strlit("-viewer");
    let n = tenant_id.len() as int;
    assert(s[0].role_id[n + 1] == 'a');
    assert(s[1].role_id[n + 1] == 'o');
    assert(s[2].role_id[n + 1] == 'm');
    assert(s[3].role_id[n + 1] == 'v');
    let m = mid.store.role_map();
    assert(m.contains_key(s[0].role_id) && m[s[0].role_id] == s[0]);
    assert(has_system_role(mid.store, tenant_id));
    let ids = set![s[0].role_id, s[1].role_id, s[2].role_id, s[3].role_id];
    assert forall|k: Seq<char>|
        system_role_ids(mid.store, tenant_id).contains(k) <==> ids.contains(k) by {
        if system_role_ids(mid.store, tenant_id).contains(k) && !ids.contains(k) {
            assert(old.store.role_map().contains_key(k));
        }
    }
    assert(system_role_ids(mid.store, tenant_id) =~= ids);
    assert(ids.len() == 4);
}

/// Seeding a tenant that already has a system role changes nothing, and a
/// successful seeding always leaves the tenant with a system role: seeding
/// more than once never adds roles.
pub proof fn lemma_reseeding_changes_nothing(
    old: RbacService,
    new: RbacService,
    tenant_id: Seq<char>,
    now: i64,
    r: Result<(), RbacError>,
)
    requires
        old.wf(),
        seed_outcome(old, new, tenant_id, now, r),
        r is Ok,
    ensures
        has_system_role(old.store, tenant_id) ==> new == old,
        has_system_role(new.store, tenant_id),
{
    if !has_system_role(old.store, tenant_id) {
        let s = seeded_roles(tenant_id, now);
        let m = new.store.role_map();
        reveal_strlit("-admin");
        reveal_strlit("-owner");
        reveal_strlit("-member");
        reveal_strlit("-viewer");
        let n = tenant_id.len() as int;
        assert(s[3].role_id[n + 1] == 'v');
        assert(m.contains_key(s[3].role_id) && m[s[3].role_id] == s[3]);
    }
}

} // verus!
