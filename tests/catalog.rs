use rbac_core::catalog::{
    get_all_permissions, invalid_permissions, member_permissions, owner_permissions,
    viewer_permissions, Permission, UserRole,
};
use rbac_core::config::AIProvider;
use rbac_core::guard::RequirePermission;
use rbac_core::resolved::ResolvedPermissions;

fn resolved(perms: &[&str], is_admin: bool) -> ResolvedPermissions {
    ResolvedPermissions {
        user_id: "u".to_string(),
        project_id: None,
        permissions: perms.iter().map(|s| s.to_string()).collect(),
        is_admin,
        resolved_at: 0,
    }
}

#[test]
fn every_permission_round_trips() {
    let all = Permission::all();
    assert_eq!(all.len(), 20);
    for p in all {
        assert_eq!(Permission::from_str(p.as_str()), Some(p));
    }
}

#[test]
fn permission_encodings() {
    assert_eq!(Permission::ProjectCreate.as_str(), "project:create");
    assert_eq!(Permission::ProjectManageMembers.as_str(), "project:manage_members");
    assert_eq!(Permission::UserManageRoles.as_str(), "user:manage_roles");
    assert_eq!(Permission::AdminAccess.as_str(), "admin:access");
    assert_eq!(Permission::SystemSettings.as_str(), "system:settings");
}

#[test]
fn unknown_permission_strings_are_rejected() {
    assert_eq!(Permission::from_str("project:destroy"), None);
    assert_eq!(Permission::from_str("PROJECT:READ"), None);
    assert_eq!(Permission::from_str(""), None);
    assert_eq!(Permission::from_str("chat:read "), None);
}

#[test]
fn invalid_permissions_lists_offenders_in_order() {
    let given = vec![
        "chat:read".to_string(),
        "chat:fly".to_string(),
        "report:read".to_string(),
        "x".to_string(),
    ];
    assert_eq!(invalid_permissions(&given), vec!["chat:fly".to_string(), "x".to_string()]);
    assert!(invalid_permissions(&vec!["chat:read".to_string()]).is_empty());
}

#[test]
fn catalog_listing() {
    let all = get_all_permissions();
    assert_eq!(all.len(), 20);
    assert_eq!(all[0], "project:create");
    assert_eq!(all[19], "system:settings");
}

#[test]
fn bundles() {
    let owner = owner_permissions();
    assert_eq!(owner.len(), 12);
    assert!(owner.contains(&"project:update".to_string()));
    assert!(owner.contains(&"project:manage_members".to_string()));
    assert!(!owner.contains(&"admin:access".to_string()));
    assert_eq!(
        member_permissions(),
        vec!["project:read", "chat:read", "chat:write", "report:create", "report:read"]
    );
    assert_eq!(viewer_permissions(), vec!["project:read", "chat:read", "report:read"]);
}

#[test]
fn user_roles_round_trip() {
    for r in [UserRole::Admin, UserRole::ProjectOwner, UserRole::ProjectMember, UserRole::Viewer] {
        assert_eq!(UserRole::from_str(r.as_str()), Some(r));
    }
    assert_eq!(UserRole::ProjectOwner.as_str(), "project_owner");
    assert_eq!(UserRole::from_str("owner"), None);
    assert_eq!(UserRole::Viewer.global_permissions(), viewer_permissions());
    assert_eq!(UserRole::Admin.global_permissions().len(), 20);
}

#[test]
fn has_permission_checks_membership() {
    let r = resolved(&["chat:read", "report:read"], false);
    assert!(r.has_permission(Permission::ChatRead));
    assert!(!r.has_permission(Permission::ChatWrite));
    assert!(r.has_any_permission(&[Permission::ChatWrite, Permission::ReportRead]));
    assert!(!r.has_any_permission(&[Permission::ChatWrite, Permission::AdminAccess]));
    assert!(!r.has_any_permission(&[]));
    assert!(r.has_all_permissions(&[Permission::ChatRead, Permission::ReportRead]));
    assert!(!r.has_all_permissions(&[Permission::ChatRead, Permission::ChatWrite]));
    assert!(r.has_all_permissions(&[]));
}

#[test]
fn admin_flag_grants_everything() {
    let r = resolved(&[], true);
    for p in Permission::all() {
        assert!(r.has_permission(p));
    }
    assert!(r.has_any_permission(&[]));
    assert!(r.has_all_permissions(&Permission::all()));
}

#[test]
fn require_permission_demands() {
    let r = resolved(&["chat:read"], false);
    let one = RequirePermission::single(Permission::ChatRead);
    assert!(one.require_all && !one.extract_project_from_path);
    assert!(one.is_satisfied_by(&r));
    let any = RequirePermission::any_of(vec![Permission::ChatWrite, Permission::ChatRead]);
    assert!(any.is_satisfied_by(&r));
    let all = RequirePermission::all_of(vec![Permission::ChatWrite, Permission::ChatRead]);
    assert!(!all.is_satisfied_by(&r));
    let scoped = all.with_project_from_path();
    assert!(scoped.extract_project_from_path && scoped.require_all);
    assert_eq!(scoped.scope(Some("p1")), Some("p1"));
    assert_eq!(one.scope(Some("p1")), None);
}

#[test]
fn ai_provider_names() {
    assert_eq!(AIProvider::from_str("OpenAI"), AIProvider::OpenAI);
    assert_eq!(AIProvider::from_str("LM-Studio"), AIProvider::LMStudio);
    assert_eq!(AIProvider::from_str("RAG"), AIProvider::CustomRAG);
    assert_eq!(AIProvider::from_str("Custom_Rag"), AIProvider::CustomRAG);
    assert_eq!(AIProvider::from_str("something"), AIProvider::LMStudio);
    assert_eq!(AIProvider::from_lowercase("openai"), AIProvider::OpenAI);
    assert_eq!(AIProvider::from_lowercase("OpenAI"), AIProvider::LMStudio);
}
