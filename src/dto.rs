use vstd::prelude::*;
use vstd::string::StrSliceExecFns;

use crate::records::Role;
use crate::resolved::ResolvedPermissions;

verus! {

/// A name of 2 to 50 characters.
pub open spec fn valid_role_name(s: Seq<char>) -> bool {
    2 <= s.len() <= 50
}

/// A description of at most 200 characters.
pub open spec fn valid_role_description(s: Seq<char>) -> bool {
    s.len() <= 200
}

/// The request to create a role.
#[derive(Debug)]
pub struct CreateRoleDto {
    pub name: String,
    pub description: String,
    pub permissions: Vec<String>,
}

/// The request to change a role; absent fields stay as they are.
#[derive(Debug)]
pub struct UpdateRoleDto {
    pub name: Option<String>,
    pub description: Option<String>,
    pub permissions: Option<Vec<String>>,
}

/// The request to give a user a role on a project.
#[derive(Debug)]
pub struct AssignRoleDto {
    pub user_id: String,
    pub project_id: String,
    pub role_id: String,
}

impl CreateRoleDto {
    /// Name and description are within their length bounds.
    pub open spec fn fields_valid(&self) -> bool {
        valid_role_name(self.name@) && valid_role_description(self.description@)
    }

    /// Checks the length bounds of name and description.
    pub fn validate(&self) -> (r: bool)
        ensures
            r == self.fields_valid(),
    {
        let n = self.name.as_str().unicode_len();
        let d = self.description.as_str().unicode_len();
        2 <= n && n <= 50 && d <= 200
    }
}

impl UpdateRoleDto {
    /// The given name and description are within their length bounds.
    pub open spec fn fields_valid(&self) -> bool {
        &&& (self.name matches Some(n) ==> valid_role_name(n@))
        &&& (self.description matches Some(d) ==> valid_role_description(d@))
    }

    /// Checks the length bounds of the given name and description.
    pub fn validate(&self) -> (r: bool)
        ensures
            r == self.fields_valid(),
    {
        let name_ok = match &self.name {
            Some(n) => {
                let l = n.as_str().unicode_len();
                2 <= l && l <= 50
            },
            None => true,
        };
        let description_ok = match &self.description {
            Some(d) => d.as_str().unicode_len() <= 200,
            None => true,
        };
        name_ok && description_ok
    }
}


/// A role as the role endpoints return it.
#[derive(Debug)]
pub struct RoleResponse {
    pub role_id: String,
    pub name: String,
    pub description: String,
    pub permissions: Vec<String>,
    pub is_system_role: bool,
    pub created_at: i64,
}

impl From<Role> for RoleResponse {
    fn from(role: Role) -> RoleResponse {
        RoleResponse {
            role_id: role.role_id,
            name: role.name,
            description: role.description,
            permissions: role.permissions,
            is_system_role: role.is_system_role,
            created_at: role.created_at,
        }
    }
}

impl vstd::std_specs::convert::FromSpecImpl<Role> for RoleResponse {
    open spec fn obeys_from_spec() -> bool {
        true
    }

    open spec fn from_spec(role: Role) -> RoleResponse {
        RoleResponse {
            role_id: role.role_id,
            name: role.name,
            description: role.description,
            permissions: role.permissions,
            is_system_role: role.is_system_role,
            created_at: role.created_at,
        }
    }
}

/// A membership as the membership endpoints return it, with the name of its
/// role when the role could be read.
#[derive(Debug)]
pub struct ProjectMembershipResponse {
    pub membership_id: String,
    pub user_id: String,
    pub project_id: String,
    pub role_id: String,
    pub role_name: Option<String>,
    pub created_at: i64,
}

/// A resolution as the permission endpoints return it.
#[derive(Debug)]
pub struct UserPermissionsResponse {
    pub user_id: String,
    pub project_id: Option<String>,
    pub permissions: Vec<String>,
    pub is_admin: bool,
}

impl From<ResolvedPermissions> for UserPermissionsResponse {
    fn from(rp: ResolvedPermissions) -> UserPermissionsResponse {
        UserPermissionsResponse {
            user_id: rp.user_id,
            project_id: rp.project_id,
            permissions: rp.permissions,
            is_admin: rp.is_admin,
        }
    }
}

impl vstd::std_specs::convert::FromSpecImpl<ResolvedPermissions> for UserPermissionsResponse {
    open spec fn obeys_from_spec() -> bool {
        true
    }

    open spec fn from_spec(rp: ResolvedPermissions) -> UserPermissionsResponse {
        UserPermissionsResponse {
            user_id: rp.user_id,
            project_id: rp.project_id,
            permissions: rp.permissions,
            is_admin: rp.is_admin,
        }
    }
}

/// The optional project scope of a permission query.
#[derive(Debug)]
pub struct OptionalProjectQuery {
    pub project_id: Option<String>,
}

/// A string of at least `min` characters.
pub open spec fn at_least(s: Seq<char>, min: nat) -> bool {
    s.len() >= min
}

/// Whether `s` has at least `min` characters.
pub fn has_min_length(s: &String, min: usize) -> (r: bool)
    ensures
        r == at_least(s@, min as nat),
{
    s.as_str().unicode_len() >= min
}

/// Whether `s`, if given, has at least `min` characters.
pub fn option_has_min_length(s: &Option<String>, min: usize) -> (r: bool)
    ensures
        r == (s matches Some(x) ==> at_least(x@, min as nat)),
{
    match s {
        Some(x) => has_min_length(x, min),
        None => true,
    }
}

/// The request to create a project.
#[derive(Debug)]
pub struct CreateProjectDto {
    pub name: String,
    pub description: String,
}

impl CreateProjectDto {
    /// The name has at least 3 characters.
    pub fn validate(&self) -> (r: bool)
        ensures
            r == at_least(self.name@, 3),
    {
        has_min_length(&self.name, 3)
    }
}

/// The request to change a project; absent fields stay as they are.
#[derive(Debug)]
pub struct UpdateProjectDto {
    pub name: Option<String>,
    pub description: Option<String>,
}

impl UpdateProjectDto {
    /// A given name has at least 3 characters.
    pub fn validate(&self) -> (r: bool)
        ensures
            r == (self.name matches Some(n) ==> at_least(n@, 3)),
    {
        option_has_min_length(&self.name, 3)
    }
}

/// The request of an administrator to change a user.
#[derive(Debug)]
pub struct UpdateUserDto {
    pub name: Option<String>,
    pub role: Option<String>,
    pub is_active: Option<bool>,
}

impl UpdateUserDto {
    /// A given name has at least 2 characters.
    pub fn validate(&self) -> (r: bool)
        ensures
            r == (self.name matches Some(n) ==> at_least(n@, 2)),
    {
        option_has_min_length(&self.name, 2)
    }
}

/// The request of a user to change their password.
#[derive(Debug)]
pub struct ChangePasswordDto {
    pub current_password: String,
    pub new_password: String,
}

impl ChangePasswordDto {
    /// The new password has at least 8 characters.
    pub fn validate(&self) -> (r: bool)
        ensures
            r == at_least(self.new_password@, 8),
    {
        has_min_length(&self.new_password, 8)
    }
}

/// The request of an administrator to reset a user's password.
#[derive(Debug)]
pub struct ResetPasswordDto {
    pub new_password: String,
}

impl ResetPasswordDto {
    /// The new password has at least 8 characters.
    pub fn validate(&self) -> (r: bool)
        ensures
            r == at_least(self.new_password@, 8),
    {
        has_min_length(&self.new_password, 8)
    }
}

/// The request to run an analytics query on a project.
#[derive(Debug)]
pub struct CreateQueryDto {
    pub query_text: String,
    pub project_id: String,
}

impl CreateQueryDto {
    /// The query has at least 3 characters.
    pub fn validate(&self) -> (r: bool)
        ensures
            r == at_least(self.query_text@, 3),
    {
        has_min_length(&self.query_text, 3)
    }
}

/// A chat message sent to a project's assistant.
#[derive(Debug)]
pub struct SendMessageDto {
    pub message: String,
    pub project_id: String,
    pub conversation_id: Option<String>,
}

impl SendMessageDto {
    /// The message is not empty.
    pub fn validate(&self) -> (r: bool)
        ensures
            r == at_least(self.message@, 1),
    {
        has_min_length(&self.message, 1)
    }
}

} // verus!
