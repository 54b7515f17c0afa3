use rbac_core::auth::{bearer_token, JwtManager};
use rbac_core::dto::{ChangePasswordDto, CreateProjectDto, CreateRoleDto, UpdateRoleDto};
use rbac_core::error::{ErrorKind, RbacError};

#[test]
fn bearer_tokens() {
    assert_eq!(bearer_token("Bearer abc.def"), Some("abc.def".to_string()));
    assert_eq!(bearer_token("Bearer "), Some(String::new()));
    assert_eq!(bearer_token("bearer abc"), None);
    assert_eq!(bearer_token("Basic abc"), None);
    assert_eq!(bearer_token("Bear"), None);
}

#[test]
fn token_claims_and_lifetimes() {
    let m = JwtManager::new("SECRET-REDACTED".to_string(), 86400, 2592000);
    let c = m.claims_for("u1", "a@b.c", "viewer", "t1", 1000, false).unwrap();
    assert_eq!(c.exp, 87400);
    assert_eq!(c.iat, 1000);
    assert_eq!(c.sub, "u1");
    assert_eq!(c.user_id, "u1");
    assert_eq!(c.tenant_id, "t1");
    let r = m.claims_for("u1", "a@b.c", "viewer", "t1", 1000, true).unwrap();
    assert_eq!(r.exp, 2593000);
    assert!(m.claims_for("u1", "a@b.c", "viewer", "t1", i64::MAX - 10, false).is_none());
    assert_eq!(m.secret(), "SECRET-REDACTED");
}

#[test]
fn role_request_bounds() {
    let ok = CreateRoleDto { name: "ab".to_string(), description: String::new(), permissions: vec![] };
    assert!(ok.validate());
    let short = CreateRoleDto { name: "a".to_string(), description: String::new(), permissions: vec![] };
    assert!(!short.validate());
    let long = CreateRoleDto { name: "n".repeat(51), description: String::new(), permissions: vec![] };
    assert!(!long.validate());
    let wordy = CreateRoleDto { name: "ok".to_string(), description: "d".repeat(201), permissions: vec![] };
    assert!(!wordy.validate());
    let fifty = CreateRoleDto { name: "é".repeat(50), description: "d".repeat(200), permissions: vec![] };
    assert!(fifty.validate());
    let none = UpdateRoleDto { name: None, description: None, permissions: None };
    assert!(none.validate());
    let bad = UpdateRoleDto { name: Some("x".to_string()), description: None, permissions: None };
    assert!(!bad.validate());
}

#[test]
fn other_request_bounds() {
    assert!(CreateProjectDto { name: "abc".to_string(), description: String::new() }.validate());
    assert!(!CreateProjectDto { name: "ab".to_string(), description: String::new() }.validate());
    let pw = ChangePasswordDto { current_password: String::new(), new_password: "1234567".to_string() };
    assert!(!pw.validate());
}

#[test]
fn error_kinds() {
    assert_eq!(RbacError::NotFound.kind(), ErrorKind::NotFound);
    assert_eq!(RbacError::InvalidPermissions(vec![]).kind(), ErrorKind::Validation);
    assert_eq!(RbacError::InvalidField.kind(), ErrorKind::Validation);
    assert_eq!(RbacError::SystemRoleImmutable.kind(), ErrorKind::Conflict);
    assert_eq!(RbacError::RoleInUse(2).kind(), ErrorKind::Conflict);
    assert_eq!(RbacError::DuplicateRoleId.kind(), ErrorKind::Conflict);
    assert_eq!(RbacError::Unauthenticated.kind(), ErrorKind::AccessDenied);
    assert_eq!(RbacError::AccessDenied.kind(), ErrorKind::AccessDenied);
    assert_eq!(RbacError::Internal.kind(), ErrorKind::Internal);
}
