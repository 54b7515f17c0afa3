use rbac_core::cache::{permissions_key, role_key, MemoryCache};
use rbac_core::catalog::{owner_permissions, Permission, UserRole};
use rbac_core::dto::{AssignRoleDto, CreateRoleDto, UpdateRoleDto};
use rbac_core::error::{ErrorKind, RbacError};
use rbac_core::guard::RequirePermission;
use rbac_core::records::{ProjectEntry, UserEntry};
use rbac_core::service::RbacService;
use rbac_core::store::MemoryStore;

const T: &str = "t1";

fn user(id: &str, role: UserRole) -> UserEntry {
    UserEntry { user_id: id.to_string(), role, tenant_id: T.to_string() }
}

fn project(id: &str, owner: &str) -> ProjectEntry {
    ProjectEntry { project_id: id.to_string(), owner_id: owner.to_string(), tenant_id: T.to_string() }
}

fn service() -> RbacService {
    let mut store = MemoryStore::new();
    store.put_user(user("A1", UserRole::Admin));
    store.put_user(user("U42", UserRole::Viewer));
    store.put_user(user("U43", UserRole::ProjectMember));
    store.put_user(user("U9", UserRole::ProjectOwner));
    store.put_project(project("P7", "U9"));
    store.put_project(project("P3", "U9"));
    RbacService::new(store, MemoryCache::new())
}

fn strings(v: &[&str]) -> Vec<String> {
    v.iter().map(|s| s.to_string()).collect()
}

fn sorted(mut v: Vec<String>) -> Vec<String> {
    v.sort();
    v
}

fn role_dto(name: &str, perms: &[&str]) -> CreateRoleDto {
    CreateRoleDto { name: name.to_string(), description: String::new(), permissions: strings(perms) }
}

fn assign(svc: &mut RbacService, u: &str, p: &str, r: &str, now: i64) {
    let dto = AssignRoleDto { user_id: u.to_string(), project_id: p.to_string(), role_id: r.to_string() };
    svc.assign_role(dto, T, now).unwrap();
}

#[test]
fn admin_has_every_permission_everywhere() {
    let mut svc = service();
    for scope in [Some("P7"), Some("P3"), Some("nowhere"), None] {
        let r = svc.resolve_permissions_at("A1", scope, 10).unwrap();
        assert!(r.is_admin);
        assert_eq!(r.permissions.len(), 20);
        for p in Permission::all() {
            assert!(r.has_permission(p));
        }
    }
}

#[test]
fn analyst_scenario() {
    let mut svc = service();
    let role = svc.create_role(role_dto("Analyst", &["report:read", "chat:read"]), T, 1).unwrap();
    assign(&mut svc, "U42", "P7", &role.role_id, 2);
    let r = svc.resolve_permissions_at("U42", Some("P7"), 3).unwrap();
    assert!(!r.is_admin);
    assert_eq!(sorted(r.permissions.clone()), strings(&["chat:read", "report:read"]));
    assert_eq!(r.user_id, "U42");
    assert_eq!(r.project_id, Some("P7".to_string()));
    assert_eq!(r.resolved_at, 3);
}

#[test]
fn assignment_replaces_a_cached_resolution() {
    let mut svc = service();
    let before = svc.resolve_permissions_at("U42", Some("P7"), 1).unwrap();
    assert!(before.permissions.is_empty());
    let role = svc.create_role(role_dto("Writer", &["chat:write"]), T, 1).unwrap();
    assign(&mut svc, "U42", "P7", &role.role_id, 2);
    let after = svc.resolve_permissions_at("U42", Some("P7"), 3).unwrap();
    assert_eq!(after.permissions, strings(&["chat:write"]));
    let other = svc.create_role(role_dto("Reader", &["chat:read"]), T, 4).unwrap();
    assign(&mut svc, "U42", "P7", &other.role_id, 5);
    assert_eq!(svc.store.memberships.len(), 1);
    let again = svc.resolve_permissions_at("U42", Some("P7"), 6).unwrap();
    assert_eq!(again.permissions, strings(&["chat:read"]));
}

#[test]
fn owner_scenario() {
    let mut svc = service();
    let r = svc.resolve_permissions_at("U9", Some("P3"), 1).unwrap();
    assert!(!r.is_admin);
    assert!(r.has_permission(Permission::ProjectUpdate));
    assert!(r.has_permission(Permission::ProjectManageMembers));
    assert!(!r.has_permission(Permission::AdminAccess));
    assert_eq!(r.permissions, owner_permissions());
}

#[test]
fn revocation_falls_back_to_ownership() {
    let mut svc = service();
    let role = svc.create_role(role_dto("Reader", &["chat:read"]), T, 1).unwrap();
    assign(&mut svc, "U9", "P3", &role.role_id, 1);
    assign(&mut svc, "U42", "P3", &role.role_id, 1);
    assert_eq!(svc.resolve_permissions_at("U9", Some("P3"), 2).unwrap().permissions, strings(&["chat:read"]));
    svc.revoke_role("U9", "P3", T).unwrap();
    svc.revoke_role("U42", "P3", T).unwrap();
    assert_eq!(svc.resolve_permissions_at("U9", Some("P3"), 3).unwrap().permissions, owner_permissions());
    assert!(svc.resolve_permissions_at("U42", Some("P3"), 3).unwrap().permissions.is_empty());
    assert!(matches!(svc.revoke_role("U42", "P3", T), Err(RbacError::NotFound)));
}

#[test]
fn role_update_reaches_every_holder() {
    let mut svc = service();
    let role = svc.create_role(role_dto("Team", &["chat:read"]), T, 1).unwrap();
    assign(&mut svc, "U42", "P7", &role.role_id, 1);
    assign(&mut svc, "U43", "P3", &role.role_id, 1);
    assert_eq!(svc.resolve_permissions_at("U42", Some("P7"), 2).unwrap().permissions, strings(&["chat:read"]));
    assert_eq!(svc.resolve_permissions_at("U43", Some("P3"), 2).unwrap().permissions, strings(&["chat:read"]));
    let dto = UpdateRoleDto { name: None, description: None, permissions: Some(strings(&["chat:write", "report:read"])) };
    let updated = svc.update_role(&role.role_id, dto, T, 3).unwrap();
    assert_eq!(updated.name, "Team");
    assert_eq!(updated.updated_at, 3);
    assert_eq!(updated.created_at, 1);
    for (u, p) in [("U42", "P7"), ("U43", "P3")] {
        let r = svc.resolve_permissions_at(u, Some(p), 4).unwrap();
        assert_eq!(r.permissions, strings(&["chat:write", "report:read"]));
    }
}

#[test]
fn role_in_use_cannot_be_deleted() {
    let mut svc = service();
    let role = svc.create_role(role_dto("Team", &["chat:read"]), T, 1).unwrap();
    assign(&mut svc, "U42", "P7", &role.role_id, 1);
    assign(&mut svc, "U43", "P7", &role.role_id, 1);
    let roles_before = svc.store.roles.len();
    let members_before = svc.store.memberships.len();
    let err = svc.delete_role(&role.role_id, T).unwrap_err();
    assert!(matches!(err, RbacError::RoleInUse(2)));
    assert_eq!(err.kind(), ErrorKind::Conflict);
    assert_eq!(svc.store.roles.len(), roles_before);
    assert_eq!(svc.store.memberships.len(), members_before);
    svc.revoke_role("U42", "P7", T).unwrap();
    svc.revoke_role("U43", "P7", T).unwrap();
    svc.delete_role(&role.role_id, T).unwrap();
    assert!(svc.get_role_by_id(&role.role_id, 5).unwrap().is_none());
    assert!(matches!(svc.delete_role(&role.role_id, T), Err(RbacError::NotFound)));
}

#[test]
fn seeding_twice_gives_four_system_roles() {
    let mut svc = service();
    svc.initialize_system_roles(T, 1).unwrap();
    svc.initialize_system_roles(T, 2).unwrap();
    let roles = svc.get_tenant_roles(T).unwrap();
    assert_eq!(roles.iter().filter(|r| r.is_system_role).count(), 4);
    let ids: Vec<&str> = roles.iter().map(|r| r.role_id.as_str()).collect();
    assert_eq!(ids, vec!["t1-admin", "t1-owner", "t1-member", "t1-viewer"]);
    assert_eq!(roles[0].name, "Administrator");
    assert_eq!(roles[0].permissions.len(), 20);
    assert_eq!(roles[1].permissions, owner_permissions());
    assert_eq!(roles[3].description, "Read-only access");
    assert!(roles.iter().all(|r| r.created_at == 1));
}

#[test]
fn system_roles_are_immutable() {
    let mut svc = service();
    svc.initialize_system_roles(T, 1).unwrap();
    let dto = UpdateRoleDto { name: Some("Boss".to_string()), description: None, permissions: None };
    assert!(matches!(svc.update_role("t1-admin", dto, T, 2), Err(RbacError::SystemRoleImmutable)));
    assert!(matches!(svc.delete_role("t1-viewer", T), Err(RbacError::SystemRoleImmutable)));
}

#[test]
fn seeding_refuses_taken_ids() {
    let mut svc = service();
    svc.create_role_with_id(role_dto("Own", &[]), T, "t1-owner".to_string(), 1).unwrap();
    assert!(matches!(svc.initialize_system_roles(T, 2), Err(RbacError::DuplicateRoleId)));
    assert_eq!(svc.get_tenant_roles(T).unwrap().len(), 1);
}

#[test]
fn store_outage_never_grants() {
    let mut svc = service();
    svc.store.set_reachable(false);
    let r = svc.check_permission("A1", Some("P7"), Permission::ProjectRead);
    assert!(matches!(r, Err(RbacError::Internal)));
    assert!(matches!(svc.verify_project_access("U9", "P3", T), Err(RbacError::Internal)));
    assert!(matches!(svc.resolve_permissions_at("U42", None, 1), Err(RbacError::Internal)));
}

#[test]
fn checks_grant_and_deny() {
    let mut svc = service();
    let r = svc.check_permission("U9", Some("P3"), Permission::ChatWrite).unwrap();
    assert_eq!(r.user_id, "U9");
    assert!(r.resolved_at > 1_600_000_000);
    assert!(matches!(svc.check_permission("U9", Some("P3"), Permission::AdminAccess), Err(RbacError::AccessDenied)));
    assert!(matches!(svc.check_permission("nobody", None, Permission::ChatRead), Err(RbacError::NotFound)));
    assert!(svc.verify_project_access("U9", "P3", T).is_ok());
    assert!(svc.verify_project_access("A1", "P3", T).unwrap().is_admin);
    assert!(matches!(svc.verify_project_access("U42", "P3", T), Err(RbacError::AccessDenied)));
}

#[test]
fn global_scope_follows_the_user_role() {
    let mut svc = service();
    let viewer = svc.resolve_permissions_at("U42", None, 1).unwrap();
    assert_eq!(viewer.permissions, strings(&["project:read", "chat:read", "report:read"]));
    let member = svc.resolve_permissions_at("U43", None, 1).unwrap();
    assert_eq!(member.permissions.len(), 5);
    assert!(!member.has_permission(Permission::ProjectCreate));
    let owner = svc.resolve_permissions_at("U9", None, 1).unwrap();
    assert_eq!(owner.permissions, owner_permissions());
}

#[test]
fn cached_resolution_lives_for_its_ttl() {
    let mut svc = service();
    svc.resolve_permissions_at("U42", Some("P7"), 1000).unwrap();
    assert_eq!(svc.cache.resolved.len(), 1);
    assert_eq!(svc.cache.resolved[0].key, "permissions:U42:P7");
    assert_eq!(svc.cache.resolved[0].expires_at, 1300);
    svc.store.set_reachable(false);
    let hit = svc.resolve_permissions_at("U42", Some("P7"), 1299).unwrap();
    assert_eq!(hit.resolved_at, 1000);
    assert!(matches!(svc.resolve_permissions_at("U42", Some("P7"), 1300), Err(RbacError::Internal)));
}

#[test]
fn cache_outage_degrades_to_the_store() {
    let mut svc = service();
    svc.cache.set_reachable(false);
    let r = svc.resolve_permissions_at("U9", Some("P3"), 1).unwrap();
    assert_eq!(r.permissions, owner_permissions());
    assert!(svc.cache.resolved.is_empty());
}

#[test]
fn roles_are_cached_for_their_ttl() {
    let mut svc = service();
    let role = svc.create_role(role_dto("Team", &["chat:read"]), T, 1).unwrap();
    let got = svc.get_role_by_id(&role.role_id, 100).unwrap().unwrap();
    assert_eq!(got.name, "Team");
    assert_eq!(svc.cache.roles.len(), 1);
    assert_eq!(svc.cache.roles[0].expires_at, 700);
    assert_eq!(svc.cache.roles[0].key, format!("role:{}", role.role_id));
    svc.store.set_reachable(false);
    assert!(svc.get_role_by_id(&role.role_id, 699).unwrap().is_some());
    assert!(matches!(svc.get_role_by_id(&role.role_id, 700), Err(RbacError::Internal)));
}

#[test]
fn cache_key_formats() {
    assert_eq!(permissions_key("u1", Some("p1")), "permissions:u1:p1");
    assert_eq!(permissions_key("u1", None), "permissions:u1:global");
    assert_eq!(role_key("r1"), "role:r1");
}

#[test]
fn role_creation_errors() {
    let mut svc = service();
    let bad = svc.create_role(role_dto("Team", &["chat:read", "chat:fly", "root"]), T, 1);
    match bad {
        Err(RbacError::InvalidPermissions(list)) => assert_eq!(list, strings(&["chat:fly", "root"])),
        _ => panic!("expected a validation error"),
    }
    assert!(matches!(svc.create_role(role_dto("T", &[]), T, 1), Err(RbacError::InvalidField)));
    svc.create_role_with_id(role_dto("One", &[]), T, "r1".to_string(), 1).unwrap();
    assert!(matches!(
        svc.create_role_with_id(role_dto("Two", &[]), T, "r1".to_string(), 1),
        Err(RbacError::DuplicateRoleId)
    ));
    svc.store.set_reachable(false);
    assert!(matches!(svc.create_role(role_dto("Three", &[]), T, 1), Err(RbacError::Internal)));
}

#[test]
fn fresh_role_ids_differ() {
    let mut svc = service();
    let a = svc.create_role(role_dto("One", &[]), T, 1).unwrap();
    let b = svc.create_role(role_dto("Two", &[]), T, 1).unwrap();
    assert_eq!(a.role_id.len(), 36);
    assert_ne!(a.role_id, b.role_id);
    assert!(!a.is_system_role);
    assert_eq!(a.tenant_id, T);
}

#[test]
fn tenant_boundaries() {
    let mut svc = service();
    let role = svc.create_role(role_dto("Team", &["chat:read"]), T, 1).unwrap();
    let dto = UpdateRoleDto { name: Some("Other".to_string()), description: None, permissions: None };
    assert!(matches!(svc.update_role(&role.role_id, dto, "t2", 2), Err(RbacError::AccessDenied)));
    assert!(matches!(svc.delete_role(&role.role_id, "t2"), Err(RbacError::AccessDenied)));
    let a = AssignRoleDto { user_id: "U42".to_string(), project_id: "P7".to_string(), role_id: role.role_id.clone() };
    assert!(matches!(svc.assign_role(a, "t2", 2), Err(RbacError::AccessDenied)));
    let missing_role = AssignRoleDto { user_id: "U42".to_string(), project_id: "P7".to_string(), role_id: "none".to_string() };
    assert!(matches!(svc.assign_role(missing_role, T, 2), Err(RbacError::NotFound)));
    let missing_project = AssignRoleDto { user_id: "U42".to_string(), project_id: "P0".to_string(), role_id: role.role_id.clone() };
    assert!(matches!(svc.assign_role(missing_project, T, 2), Err(RbacError::NotFound)));
    let missing_user = AssignRoleDto { user_id: "U0".to_string(), project_id: "P7".to_string(), role_id: role.role_id.clone() };
    assert!(matches!(svc.assign_role(missing_user, T, 2), Err(RbacError::NotFound)));
    let dto = UpdateRoleDto { name: None, description: None, permissions: Some(strings(&["nope"])) };
    assert!(matches!(svc.update_role(&role.role_id, dto, T, 2), Err(RbacError::InvalidPermissions(_))));
    let dto = UpdateRoleDto { name: None, description: None, permissions: None };
    assert!(matches!(svc.update_role("none", dto, T, 2), Err(RbacError::NotFound)));
}

#[test]
fn membership_listings() {
    let mut svc = service();
    let role = svc.create_role(role_dto("Team", &["chat:read"]), T, 1).unwrap();
    assign(&mut svc, "U42", "P7", &role.role_id, 1);
    assign(&mut svc, "U43", "P7", &role.role_id, 1);
    assign(&mut svc, "U42", "P3", &role.role_id, 1);
    assert_eq!(svc.get_project_memberships("P7").unwrap().len(), 2);
    assert_eq!(svc.get_user_memberships("U42").unwrap().len(), 2);
    let m = svc.get_membership("U43", "P7").unwrap().unwrap();
    assert_eq!(m.role_id, role.role_id);
    assert_eq!(m.membership_id.len(), 36);
    assert!(svc.get_membership("U43", "P3").unwrap().is_none());
}

#[test]
fn role_permissions_decode() {
    let mut svc = service();
    let role = svc.create_role(role_dto("Team", &["chat:read", "report:read", "chat:read"]), T, 1).unwrap();
    let ps = role.get_permissions();
    assert!(ps.contains(&Permission::ChatRead));
    assert!(ps.contains(&Permission::ReportRead));
    assert!(!ps.contains(&Permission::ChatWrite));
}

#[test]
fn foreign_roles_read_as_absent() {
    let mut svc = service();
    let role = svc.create_role(role_dto("Team", &["chat:read"]), T, 1).unwrap();
    assert!(svc.get_tenant_role(&role.role_id, T, 2).unwrap().is_some());
    assert!(svc.get_tenant_role(&role.role_id, "t2", 2).unwrap().is_none());
    assert!(svc.get_tenant_role("missing", T, 2).unwrap().is_none());
}

#[test]
fn lost_invalidation_is_bounded_by_the_ttl() {
    let mut svc = service();
    let role = svc.create_role(role_dto("Team", &["chat:read"]), T, 1).unwrap();
    let before = svc.resolve_permissions_at("U42", Some("P7"), 1000).unwrap();
    assert!(before.permissions.is_empty());
    svc.cache.set_reachable(false);
    assign(&mut svc, "U42", "P7", &role.role_id, 1001);
    svc.cache.set_reachable(true);
    let stale = svc.resolve_permissions_at("U42", Some("P7"), 1299).unwrap();
    assert!(stale.permissions.is_empty());
    let fresh = svc.resolve_permissions_at("U42", Some("P7"), 1300).unwrap();
    assert_eq!(fresh.permissions, strings(&["chat:read"]));
}

#[test]
fn well_formedness_is_checked() {
    let mut svc = service();
    assert!(svc.is_well_formed());
    svc.store.users.push(user("U42", UserRole::Admin));
    assert!(!svc.is_well_formed());
    let mut other = service();
    let role = other.create_role(role_dto("Team", &[]), T, 1).unwrap();
    other.store.roles.push(role);
    assert!(!other.store.is_well_formed());
}

#[test]
fn guarded_routes() {
    let mut svc = service();
    let manage = RequirePermission::single(Permission::ProjectManageMembers).with_project_from_path();
    assert!(matches!(svc.authorize(&manage, None, Some("P3")), Err(RbacError::Unauthenticated)));
    let ok = svc.authorize(&manage, Some("U9"), Some("P3")).unwrap();
    assert_eq!(ok.project_id, Some("P3".to_string()));
    assert!(matches!(svc.authorize(&manage, Some("U42"), Some("P3")), Err(RbacError::AccessDenied)));
    let global = RequirePermission::any_of(vec![Permission::ProjectCreate, Permission::ChatRead]);
    let g = svc.authorize(&global, Some("U42"), Some("P3")).unwrap();
    assert_eq!(g.project_id, None);
    svc.store.set_reachable(false);
    assert!(matches!(svc.authorize(&global, Some("U43"), None), Err(RbacError::Internal)));
}

#[test]
fn membership_responses_name_their_roles() {
    let mut svc = service();
    let role = svc.create_role(role_dto("Team", &["chat:read"]), T, 1).unwrap();
    assign(&mut svc, "U42", "P7", &role.role_id, 5);
    assign(&mut svc, "U43", "P7", &role.role_id, 6);
    let mut members = svc.get_project_memberships("P7").unwrap();
    members[1].role_id = "gone".to_string();
    let out = svc.membership_responses(members, 10);
    assert_eq!(out.len(), 2);
    assert_eq!(out[0].user_id, "U42");
    assert_eq!(out[0].role_name, Some("Team".to_string()));
    assert_eq!(out[0].created_at, 5);
    assert_eq!(out[1].role_id, "gone");
    assert_eq!(out[1].role_name, None);
}

#[test]
fn all_caches_can_be_dropped() {
    let mut svc = service();
    let role = svc.create_role(role_dto("Team", &["chat:read"]), T, 1).unwrap();
    svc.get_role_by_id(&role.role_id, 2).unwrap();
    svc.resolve_permissions_at("U9", None, 2).unwrap();
    assert_eq!(svc.cache.roles.len(), 1);
    assert_eq!(svc.cache.resolved.len(), 1);
    svc.invalidate_all_caches();
    assert!(svc.cache.roles.is_empty());
    assert!(svc.cache.resolved.is_empty());
}

#[test]
fn reassignment_overwrites_a_membership_of_another_tenant() {
    let mut svc = service();
    let role = svc.create_role(role_dto("Team", &["chat:write"]), T, 1).unwrap();
    let foreign = rbac_core::records::ProjectMembership {
        membership_id: "m0".to_string(),
        user_id: "U42".to_string(),
        project_id: "P7".to_string(),
        role_id: "old".to_string(),
        tenant_id: "t2".to_string(),
        created_at: 0,
        updated_at: 0,
    };
    svc.store.insert_membership(foreign).unwrap();
    let dto = AssignRoleDto { user_id: "U42".to_string(), project_id: "P7".to_string(), role_id: role.role_id.clone() };
    let m = svc.assign_role(dto, T, 5).unwrap();
    assert_eq!(m.membership_id, "m0");
    assert_eq!(m.role_id, role.role_id);
    assert_eq!(m.tenant_id, T);
    assert_eq!(m.created_at, 0);
    assert_eq!(m.updated_at, 5);
    assert_eq!(svc.store.memberships.len(), 1);
    assert_eq!(svc.store.memberships[0].role_id, role.role_id);
    let r = svc.resolve_permissions_at("U42", Some("P7"), 6).unwrap();
    assert_eq!(r.permissions, strings(&["chat:write"]));
}
