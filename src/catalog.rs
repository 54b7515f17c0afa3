use vstd::prelude::*;

verus! {

/// An action identifier of the closed permission catalog.
#[derive(Clone, Copy, Debug, PartialEq, Eq, Hash, Structural)]
pub enum Permission {
    ProjectCreate,
    ProjectRead,
    ProjectUpdate,
    ProjectDelete,
    ProjectManageMembers,
    UserCreate,
    UserRead,
    UserUpdate,
    UserDelete,
    UserManageRoles,
    ChatRead,
    ChatWrite,
    ChatDelete,
    ChatExport,
    ReportCreate,
    ReportRead,
    ReportExport,
    ReportDelete,
    AdminAccess,
    SystemSettings,
}

/// The stable string encoding of a permission.
pub open spec fn permission_code(p: Permission) -> Seq<char> {
    match p {
        Permission::ProjectCreate => "project:create"@,
        Permission::ProjectRead => "project:read"@,
        Permission::ProjectUpdate => "project:update"@,
        Permission::ProjectDelete => "project:delete"@,
        Permission::ProjectManageMembers => "project:manage_members"@,
        Permission::UserCreate => "user:create"@,
        Permission::UserRead => "user:read"@,
        Permission::UserUpdate => "user:update"@,
        Permission::UserDelete => "user:delete"@,
        Permission::UserManageRoles => "user:manage_roles"@,
        Permission::ChatRead => "chat:read"@,
        Permission::ChatWrite => "chat:write"@,
        Permission::ChatDelete => "chat:delete"@,
        Permission::ChatExport => "chat:export"@,
        Permission::ReportCreate => "report:create"@,
        Permission::ReportRead => "report:read"@,
        Permission::ReportExport => "report:export"@,
        Permission::ReportDelete => "report:delete"@,
        Permission::AdminAccess => "admin:access"@,
        Permission::SystemSettings => "system:settings"@,
    }
}

/// The permission whose encoding is `s`, if any.
pub open spec fn permission_from_code(s: Seq<char>) -> Option<Permission> {
    if s == "project:create"@ {
        Some(Permission::ProjectCreate)
    } else if s == "project:read"@ {
        Some(Permission::ProjectRead)
    } else if s == "project:update"@ {
        Some(Permission::ProjectUpdate)
    } else if s == "project:delete"@ {
        Some(Permission::ProjectDelete)
    } else if s == "project:manage_members"@ {
        Some(Permission::ProjectManageMembers)
    } else if s == "user:create"@ {
        Some(Permission::UserCreate)
    } else if s == "user:read"@ {
        Some(Permission::UserRead)
    } else if s == "user:update"@ {
        Some(Permission::UserUpdate)
    } else if s == "user:delete"@ {
        Some(Permission::UserDelete)
    } else if s == "user:manage_roles"@ {
        Some(Permission::UserManageRoles)
    } else if s == "chat:read"@ {
        Some(Permission::ChatRead)
    } else if s == "chat:write"@ {
        Some(Permission::ChatWrite)
    } else if s == "chat:delete"@ {
        Some(Permission::ChatDelete)
    } else if s == "chat:export"@ {
        Some(Permission::ChatExport)
    } else if s == "report:create"@ {
        Some(Permission::ReportCreate)
    } else if s == "report:read"@ {
        Some(Permission::ReportRead)
    } else if s == "report:export"@ {
        Some(Permission::ReportExport)
    } else if s == "report:delete"@ {
        Some(Permission::ReportDelete)
    } else if s == "admin:access"@ {
        Some(Permission::AdminAccess)
    } else if s == "system:settings"@ {
        Some(Permission::SystemSettings)
    } else {
        None
    }
}

/// Every permission of the catalog, in catalog order.
pub open spec fn catalog() -> Seq<Permission> {
    seq![
        Permission::ProjectCreate,
        Permission::ProjectRead,
        Permission::ProjectUpdate,
        Permission::ProjectDelete,
        Permission::ProjectManageMembers,
        Permission::UserCreate,
        Permission::UserRead,
        Permission::UserUpdate,
        Permission::UserDelete,
        Permission::UserManageRoles,
        Permission::ChatRead,
        Permission::ChatWrite,
        Permission::ChatDelete,
        Permission::ChatExport,
        Permission::ReportCreate,
        Permission::ReportRead,
        Permission::ReportExport,
        Permission::ReportDelete,
        Permission::AdminAccess,
        Permission::SystemSettings,
    ]
}

/// Whether `s` is the encoding of some catalog permission.
pub open spec fn is_permission_code(s: Seq<char>) -> bool {
    permission_from_code(s) is Some
}

/// Equality of two string slices, decided on their characters.
pub fn str_equal(a: &str, b: &str) -> (r: bool)
    ensures
        r == (a@ == b@),
{
    let x = a.to_string();
    let y = b.to_string();
    x == y
}

impl Permission {
    /// The stable string encoding of this permission.
    pub fn as_str(&self) -> (r: &'static str)
        ensures
            r@ == permission_code(*self),
    {
        match self {
            Permission::ProjectCreate => "project:create",
            Permission::ProjectRead => "project:read",
            Permission::ProjectUpdate => "project:update",
            Permission::ProjectDelete => "project:delete",
            Permission::ProjectManageMembers => "project:manage_members",
            Permission::UserCreate => "user:create",
            Permission::UserRead => "user:read",
            Permission::UserUpdate => "user:update",
            Permission::UserDelete => "user:delete",
            Permission::UserManageRoles => "user:manage_roles",
            Permission::ChatRead => "chat:read",
            Permission::ChatWrite => "chat:write",
            Permission::ChatDelete => "chat:delete",
            Permission::ChatExport => "chat:export",
            Permission::ReportCreate => "report:create",
            Permission::ReportRead => "report:read",
            Permission::ReportExport => "report:export",
            Permission::ReportDelete => "report:delete",
            Permission::AdminAccess => "admin:access",
            Permission::SystemSettings => "system:settings",
        }
    }

    /// Decodes a permission from its string encoding; `None` for any string
    /// outside the catalog.
    pub fn from_str(s: &str) -> (r: Option<Permission>)
        ensures
            r == permission_from_code(s@),
    {
        if str_equal(s, "project:create") {
            return Some(Permission::ProjectCreate);
        }
        if str_equal(s, "project:read") {
            return Some(Permission::ProjectRead);
        }
        if str_equal(s, "project:update") {
            return Some(Permission::ProjectUpdate);
        }
        if str_equal(s, "project:delete") {
            return Some(Permission::ProjectDelete);
        }
        if str_equal(s, "project:manage_members") {
            return Some(Permission::ProjectManageMembers);
        }
        if str_equal(s, "user:create") {
            return Some(Permission::UserCreate);
        }
        if str_equal(s, "user:read") {
            return Some(Permission::UserRead);
        }
        if str_equal(s, "user:update") {
            return Some(Permission::UserUpdate);
        }
        if str_equal(s, "user:delete") {
            return Some(Permission::UserDelete);
        }
        if str_equal(s, "user:manage_roles") {
            return Some(Permission::UserManageRoles);
        }
        if str_equal(s, "chat:read") {
            return Some(Permission::ChatRead);
        }
        if str_equal(s, "chat:write") {
            return Some(Permission::ChatWrite);
        }
        if str_equal(s, "chat:delete") {
            return Some(Permission::ChatDelete);
        }
        if str_equal(s, "chat:export") {
            return Some(Permission::ChatExport);
        }
        if str_equal(s, "report:create") {
            return Some(Permission::ReportCreate);
        }
        if str_equal(s, "report:read") {
            return Some(Permission::ReportRead);
        }
        if str_equal(s, "report:export") {
            return Some(Permission::ReportExport);
        }
        if str_equal(s, "report:delete") {
            return Some(Permission::ReportDelete);
        }
        if str_equal(s, "admin:access") {
            return Some(Permission::AdminAccess);
        }
        if str_equal(s, "system:settings") {
            return Some(Permission::SystemSettings);
        }
        None
    }

    /// Every permission of the catalog, in catalog order.
    pub fn all() -> (r: Vec<Permission>)
        ensures
            r@ == catalog(),
    {
        let r = vec![
            Permission::ProjectCreate,
            Permission::ProjectRead,
            Permission::ProjectUpdate,
            Permission::ProjectDelete,
            Permission::ProjectManageMembers,
            Permission::UserCreate,
            Permission::UserRead,
            Permission::UserUpdate,
            Permission::UserDelete,
            Permission::UserManageRoles,
            Permission::ChatRead,
            Permission::ChatWrite,
            Permission::ChatDelete,
            Permission::ChatExport,
            Permission::ReportCreate,
            Permission::ReportRead,
            Permission::ReportExport,
            Permission::ReportDelete,
            Permission::AdminAccess,
            Permission::SystemSettings,
        ];
        assert(r@ =~= catalog());
        r
    }
}


/// Decoding the encoding of a permission gives the permission back.
pub proof fn lemma_code_round_trip(p: Permission)
    ensures
        permission_from_code(permission_code(p)) == Some(p),
{
    match p {
        Permission::ProjectCreate => {
            reveal_strlit("project:create");
        },
        Permission::ProjectRead => {
            reveal_strlit("project:read");
            reveal_strlit("project:create");
            assert("project:read"@.len() != "project:create"@.len());
        },
        Permission::ProjectUpdate => {
            reveal_strlit("project:update");
            reveal_strlit("project:create");
            reveal_strlit("project:read");
            assert("project:update"@[8] != "project:create"@[8]);
            assert("project:update"@.len() != "project:read"@.len());
        },
        Permission::ProjectDelete => {
            reveal_strlit("project:delete");
            reveal_strlit("project:create");
            reveal_strlit("project:read");
            reveal_strlit("project:update");
            assert("project:delete"@[8] != "project:create"@[8]);
            assert("project:delete"@.len() != "project:read"@.len());
            assert("project:delete"@[8] != "project:update"@[8]);
        },
        Permission::ProjectManageMembers => {
            reveal_strlit("project:manage_members");
            reveal_strlit("project:create");
            reveal_strlit("project:read");
            reveal_strlit("project:update");
            reveal_strlit("project:delete");
            assert("project:manage_members"@.len() != "project:create"@.len());
            assert("project:manage_members"@.len() != "project:read"@.len());
            assert("project:manage_members"@.len() != "project:update"@.len());
            assert("project:manage_members"@.len() != "project:delete"@.len());
        },
        Permission::UserCreate => {
            reveal_strlit("user:create");
            reveal_strlit("project:create");
            reveal_strlit("project:read");
            reveal_strlit("project:update");
            reveal_strlit("project:delete");
            reveal_strlit("project:manage_members");
            assert("user:create"@.len() != "project:create"@.len());
            assert("user:create"@.len() != "project:read"@.len());
            assert("user:create"@.len() != "project:update"@.len());
            assert("user:create"@.len() != "project:delete"@.len());
            assert("user:create"@.len() != "project:manage_members"@.len());
        },
        Permission::UserRead => {
            reveal_strlit("user:read");
            reveal_strlit("project:create");
            reveal_strlit("project:read");
            reveal_strlit("project:update");
            reveal_strlit("project:delete");
            reveal_strlit("project:manage_members");
            reveal_strlit("user:create");
            assert("user:read"@.len() != "project:create"@.len());
            assert("user:read"@.len() != "project:read"@.len());
            assert("user:read"@.len() != "project:update"@.len());
            assert("user:read"@.len() != "project:delete"@.len());
            assert("user:read"@.len() != "project:manage_members"@.len());
            assert("user:read"@.len() != "user:create"@.len());
        },
        Permission::UserUpdate => {
            reveal_strlit("user:update");
            reveal_strlit("project:create");
            reveal_strlit("project:read");
            reveal_strlit("project:update");
            reveal_strlit("project:delete");
            reveal_strlit("project:manage_members");
            reveal_strlit("user:create");
            reveal_strlit("user:read");
            assert("user:update"@.len() != "project:create"@.len());
            assert("user:update"@.len() != "project:read"@.len());
            assert("user:update"@.len() != "project:update"@.len());
            assert("user:update"@.len() != "project:delete"@.len());
            assert("user:update"@.len() != "project:manage_members"@.len());
            assert("user:update"@[5] != "user:create"@[5]);
            assert("user:update"@.len() != "user:read"@.len());
        },
        Permission::UserDelete => {
            reveal_strlit("user:delete");
            reveal_strlit("project:create");
            reveal_strlit("project:read");
            reveal_strlit("project:update");
            reveal_strlit("project:delete");
            reveal_strlit("project:manage_members");
            reveal_strlit("user:create");
            reveal_strlit("user:read");
            reveal_strlit("user:update");
            assert("user:delete"@.len() != "project:create"@.len());
            assert("user:delete"@.len() != "project:read"@.len());
            assert("user:delete"@.len() != "project:update"@.len());
            assert("user:delete"@.len() != "project:delete"@.len());
            assert("user:delete"@.len() != "project:manage_members"@.len());
            assert("user:delete"@[5] != "user:create"@[5]);
            assert("user:delete"@.len() != "user:read"@.len());
            assert("user:delete"@[5] != "user:update"@[5]);
        },
        Permission::UserManageRoles => {
            reveal_strlit("user:manage_roles");
            reveal_strlit("project:create");
            reveal_strlit("project:read");
            reveal_strlit("project:update");
            reveal_strlit("project:delete");
            reveal_strlit("project:manage_members");
            reveal_strlit("user:create");
            reveal_strlit("user:read");
            reveal_strlit("user:update");
            reveal_strlit("user:delete");
            assert("user:manage_roles"@.len() != "project:create"@.len());
            assert("user:manage_roles"@.len() != "project:read"@.len());
            assert("user:manage_roles"@.len() != "project:update"@.len());
            assert("user:manage_roles"@.len() != "project:delete"@.len());
            assert("user:manage_roles"@.len() != "project:manage_members"@.len());
            assert("user:manage_roles"@.len() != "user:create"@.len());
            assert("user:manage_roles"@.len() != "user:read"@.len());
            assert("user:manage_roles"@.len() != "user:update"@.len());
            assert("user:manage_roles"@.len() != "user:delete"@.len());
        },
        Permission::ChatRead => {
            reveal_strlit("chat:read");
            reveal_strlit("project:create");
            reveal_strlit("project:read");
            reveal_strlit("project:update");
            reveal_strlit("project:delete");
            reveal_strlit("project:manage_members");
            reveal_strlit("user:create");
            reveal_strlit("user:read");
            reveal_strlit("user:update");
            reveal_strlit("user:delete");
            reveal_strlit("user:manage_roles");
            assert("chat:read"@.len() != "project:create"@.len());
            assert("chat:read"@.len() != "project:read"@.len());
            assert("chat:read"@.len() != "project:update"@.len());
            assert("chat:read"@.len() != "project:delete"@.len());
            assert("chat:read"@.len() != "project:manage_members"@.len());
            assert("chat:read"@.len() != "user:create"@.len());
            assert("chat:read"@[0] != "user:read"@[0]);
            assert("chat:read"@.len() != "user:update"@.len());
            assert("chat:read"@.len() != "user:delete"@.len());
            assert("chat:read"@.len() != "user:manage_roles"@.len());
        },
        Permission::ChatWrite => {
            reveal_strlit("chat:write");
            reveal_strlit("project:create");
            reveal_strlit("project:read");
            reveal_strlit("project:update");
            reveal_strlit("project:delete");
            reveal_strlit("project:manage_members");
            reveal_strlit("user:create");
            reveal_strlit("user:read");
            reveal_strlit("user:update");
            reveal_strlit("user:delete");
            reveal_strlit("user:manage_roles");
            reveal_strlit("chat:read");
            assert("chat:write"@.len() != "project:create"@.len());
            assert("chat:write"@.len() != "project:read"@.len());
            assert("chat:write"@.len() != "project:update"@.len());
            assert("chat:write"@.len() != "project:delete"@.len());
            assert("chat:write"@.len() != "project:manage_members"@.len());
            assert("chat:write"@.len() != "user:create"@.len());
            assert("chat:write"@.len() != "user:read"@.len());
            assert("chat:write"@.len() != "user:update"@.len());
            assert("chat:write"@.len() != "user:delete"@.len());
            assert("chat:write"@.len() != "user:manage_roles"@.len());
            assert("chat:write"@.len() != "chat:read"@.len());
        },
        Permission::ChatDelete => {
            reveal_strlit("chat:delete");
            reveal_strlit("project:create");
            reveal_strlit("project:read");
            reveal_strlit("project:update");
            reveal_strlit("project:delete");
            reveal_strlit("project:manage_members");
            reveal_strlit("user:create");
            reveal_strlit("user:read");
            reveal_strlit("user:update");
            reveal_strlit("user:delete");
            reveal_strlit("user:manage_roles");
            reveal_strlit("chat:read");
            reveal_strlit("chat:write");
            assert("chat:delete"@.len() != "project:create"@.len());
            assert("chat:delete"@.len() != "project:read"@.len());
            assert("chat:delete"@.len() != "project:update"@.len());
            assert("chat:delete"@.len() != "project:delete"@.len());
            assert("chat:delete"@.len() != "project:manage_members"@.len());
            assert("chat:delete"@[0] != "user:create"@[0]);
            assert("chat:delete"@.len() != "user:read"@.len());
            assert("chat:delete"@[0] != "user:update"@[0]);
            assert("chat:delete"@[0] != "user:delete"@[0]);
            assert("chat:delete"@.len() != "user:manage_roles"@.len());
            assert("chat:delete"@.len() != "chat:read"@.len());
            assert("chat:delete"@.len() != "chat:write"@.len());
        },
        Permission::ChatExport => {
            reveal_strlit("chat:export");
            reveal_strlit("project:create");
            reveal_strlit("project:read");
            reveal_strlit("project:update");
            reveal_strlit("project:delete");
            reveal_strlit("project:manage_members");
            reveal_strlit("user:create");
            reveal_strlit("user:read");
            reveal_strlit("user:update");
            reveal_strlit("user:delete");
            reveal_strlit("user:manage_roles");
            reveal_strlit("chat:read");
            reveal_strlit("chat:write");
            reveal_strlit("chat:delete");
            assert("chat:export"@.len() != "project:create"@.len());
            assert("chat:export"@.len() != "project:read"@.len());
            assert("chat:export"@.len() != "project:update"@.len());
            assert("chat:export"@.len() != "project:delete"@.len());
            assert("chat:export"@.len() != "project:manage_members"@.len());
            assert("chat:export"@[0] != "user:create"@[0]);
            assert("chat:export"@.len() != "user:read"@.len());
            assert("chat:export"@[0] != "user:update"@[0]);
            assert("chat:export"@[0] != "user:delete"@[0]);
            assert("chat:export"@.len() != "user:manage_roles"@.len());
            assert("chat:export"@.len() != "chat:read"@.len());
            assert("chat:export"@.len() != "chat:write"@.len());
            assert("chat:export"@[5] != "chat:delete"@[5]);
        },
        Permission::ReportCreate => {
            reveal_strlit("report:create");
            reveal_strlit("project:create");
            reveal_strlit("project:read");
            reveal_strlit("project:update");
            reveal_strlit("project:delete");
            reveal_strlit("project:manage_members");
            reveal_strlit("user:create");
            reveal_strlit("user:read");
            reveal_strlit("user:update");
            reveal_strlit("user:delete");
            reveal_strlit("user:manage_roles");
            reveal_strlit("chat:read");
            reveal_strlit("chat:write");
            reveal_strlit("chat:delete");
            reveal_strlit("chat:export");
            assert("report:create"@.len() != "project:create"@.len());
            assert("report:create"@.len() != "project:read"@.len());
            assert("report:create"@.len() != "project:update"@.len());
            assert("report:create"@.len() != "project:delete"@.len());
            assert("report:create"@.len() != "project:manage_members"@.len());
            assert("report:create"@.len() != "user:create"@.len());
            assert("report:create"@.len() != "user:read"@.len());
            assert("report:create"@.len() != "user:update"@.len());
            assert("report:create"@.len() != "user:delete"@.len());
            assert("report:create"@.len() != "user:manage_roles"@.len());
            assert("report:create"@.len() != "chat:read"@.len());
            assert("report:create"@.len() != "chat:write"@.len());
            assert("report:create"@.len() != "chat:delete"@.len());
            assert("report:create"@.len() != "chat:export"@.len());
        },
        Permission::ReportRead => {
            reveal_strlit("report:read");
            reveal_strlit("project:create");
            reveal_strlit("project:read");
            reveal_strlit("project:update");
            reveal_strlit("project:delete");
            reveal_strlit("project:manage_members");
            reveal_strlit("user:create");
            reveal_strlit("user:read");
            reveal_strlit("user:update");
            reveal_strlit("user:delete");
            reveal_strlit("user:manage_roles");
            reveal_strlit("chat:read");
            reveal_strlit("chat:write");
            reveal_strlit("chat:delete");
            reveal_strlit("chat:export");
            reveal_strlit("report:create");
            assert("report:read"@.len() != "project:create"@.len());
            assert("report:read"@.len() != "project:read"@.len());
            assert("report:read"@.len() != "project:update"@.len());
            assert("report:read"@.len() != "project:delete"@.len());
            assert("report:read"@.len() != "project:manage_members"@.len());
            assert("report:read"@[0] != "user:create"@[0]);
            assert("report:read"@.len() != "user:read"@.len());
            assert("report:read"@[0] != "user:update"@[0]);
            assert("report:read"@[0] != "user:delete"@[0]);
            assert("report:read"@.len() != "user:manage_roles"@.len());
            assert("report:read"@.len() != "chat:read"@.len());
            assert("report:read"@.len() != "chat:write"@.len());
            assert("report:read"@[0] != "chat:delete"@[0]);
            assert("report:read"@[0] != "chat:export"@[0]);
            assert("report:read"@.len() != "report:create"@.len());
        },
        Permission::ReportExport => {
            reveal_strlit("report:export");
            reveal_strlit("project:create");
            reveal_strlit("project:read");
            reveal_strlit("project:update");
            reveal_strlit("project:delete");
            reveal_strlit("project:manage_members");
            reveal_strlit("user:create");
            reveal_strlit("user:read");
            reveal_strlit("user:update");
            reveal_strlit("user:delete");
            reveal_strlit("user:manage_roles");
            reveal_strlit("chat:read");
            reveal_strlit("chat:write");
            reveal_strlit("chat:delete");
            reveal_strlit("chat:export");
            reveal_strlit("report:create");
            reveal_strlit("report:read");
            assert("report:export"@.len() != "project:create"@.len());
            assert("report:export"@.len() != "project:read"@.len());
            assert("report:export"@.len() != "project:update"@.len());
            assert("report:export"@.len() != "project:delete"@.len());
            assert("report:export"@.len() != "project:manage_members"@.len());
            assert("report:export"@.len() != "user:create"@.len());
            assert("report:export"@.len() != "user:read"@.len());
            assert("report:export"@.len() != "user:update"@.len());
            assert("report:export"@.len() != "user:delete"@.len());
            assert("report:export"@.len() != "user:manage_roles"@.len());
            assert("report:export"@.len() != "chat:read"@.len());
            assert("report:export"@.len() != "chat:write"@.len());
            assert("report:export"@.len() != "chat:delete"@.len());
            assert("report:export"@.len() != "chat:export"@.len());
            assert("report:export"@[7] != "report:create"@[7]);
            assert("report:export"@.len() != "report:read"@.len());
        },
        Permission::ReportDelete => {
            reveal_strlit("report:delete");
            reveal_strlit("project:create");
            reveal_strlit("project:read");
            reveal_strlit("project:update");
            reveal_strlit("project:delete");
            reveal_strlit("project:manage_members");
            reveal_strlit("user:create");
            reveal_strlit("user:read");
            reveal_strlit("user:update");
            reveal_strlit("user:delete");
            reveal_strlit("user:manage_roles");
            reveal_strlit("chat:read");
            reveal_strlit("chat:write");
            reveal_strlit("chat:delete");
            reveal_strlit("chat:export");
            reveal_strlit("report:create");
            reveal_strlit("report:read");
            reveal_strlit("report:export");
            assert("report:delete"@.len() != "project:create"@.len());
            assert("report:delete"@.len() != "project:read"@.len());
            assert("report:delete"@.len() != "project:update"@.len());
            assert("report:delete"@.len() != "project:delete"@.len());
            assert("report:delete"@.len() != "project:manage_members"@.len());
            assert("report:delete"@.len() != "user:create"@.len());
            assert("report:delete"@.len() != "user:read"@.len());
            assert("report:delete"@.len() != "user:update"@.len());
            assert("report:delete"@.len() != "user:delete"@.len());
            assert("report:delete"@.len() != "user:manage_roles"@.len());
            assert("report:delete"@.len() != "chat:read"@.len());
            assert("report:delete"@.len() != "chat:write"@.len());
            assert("report:delete"@.len() != "chat:delete"@.len());
            assert("report:delete"@.len() != "chat:export"@.len());
            assert("report:delete"@[7] != "report:create"@[7]);
            assert("report:delete"@.len() != "report:read"@.len());
            assert("report:delete"@[7] != "report:export"@[7]);
        },
        Permission::AdminAccess => {
            reveal_strlit("admin:access");
            reveal_strlit("project:create");
            reveal_strlit("project:read");
            reveal_strlit("project:update");
            reveal_strlit("project:delete");
            reveal_strlit("project:manage_members");
            reveal_strlit("user:create");
            reveal_strlit("user:read");
            reveal_strlit("user:update");
            reveal_strlit("user:delete");
            reveal_strlit("user:manage_roles");
            reveal_strlit("chat:read");
            reveal_strlit("chat:write");
            reveal_strlit("chat:delete");
            reveal_strlit("chat:export");
            reveal_strlit("report:create");
            reveal_strlit("report:read");
            reveal_strlit("report:export");
            reveal_strlit("report:delete");
            assert("admin:access"@.len() != "project:create"@.len());
            assert("admin:access"@[0] != "project:read"@[0]);
            assert("admin:access"@.len() != "project:update"@.len());
            assert("admin:access"@.len() != "project:delete"@.len());
            assert("admin:access"@.len() != "project:manage_members"@.len());
            assert("admin:access"@.len() != "user:create"@.len());
            assert("admin:access"@.len() != "user:read"@.len());
            assert("admin:access"@.len() != "user:update"@.len());
            assert("admin:access"@.len() != "user:delete"@.len());
            assert("admin:access"@.len() != "user:manage_roles"@.len());
            assert("admin:access"@.len() != "chat:read"@.len());
            assert("admin:access"@.len() != "chat:write"@.len());
            assert("admin:access"@.len() != "chat:delete"@.len());
            assert("admin:access"@.len() != "chat:export"@.len());
            assert("admin:access"@.len() != "report:create"@.len());
            assert("admin:access"@.len() != "report:read"@.len());
            assert("admin:access"@.len() != "report:export"@.len());
            assert("admin:access"@.len() != "report:delete"@.len());
        },
        Permission::SystemSettings => {
            reveal_strlit("system:settings");
            reveal_strlit("project:create");
            reveal_strlit("project:read");
            reveal_strlit("project:update");
            reveal_strlit("project:delete");
            reveal_strlit("project:manage_members");
            reveal_strlit("user:create");
            reveal_strlit("user:read");
            reveal_strlit("user:update");
            reveal_strlit("user:delete");
            reveal_strlit("user:manage_roles");
            reveal_strlit("chat:read");
            reveal_strlit("chat:write");
            reveal_strlit("chat:delete");
            reveal_strlit("chat:export");
            reveal_strlit("report:create");
            reveal_strlit("report:read");
            reveal_strlit("report:export");
            reveal_strlit("report:delete");
            reveal_strlit("admin:access");
            assert("system:settings"@.len() != "project:create"@.len());
            assert("system:settings"@.len() != "project:read"@.len());
            assert("system:settings"@.len() != "project:update"@.len());
            assert("system:settings"@.len() != "project:delete"@.len());
            assert("system:settings"@.len() != "project:manage_members"@.len());
            assert("system:settings"@.len() != "user:create"@.len());
            assert("system:settings"@.len() != "user:read"@.len());
            assert("system:settings"@.len() != "user:update"@.len());
            assert("system:settings"@.len() != "user:delete"@.len());
            assert("system:settings"@.len() != "user:manage_roles"@.len());
            assert("system:settings"@.len() != "chat:read"@.len());
            assert("system:settings"@.len() != "chat:write"@.len());
            assert("system:settings"@.len() != "chat:delete"@.len());
            assert("system:settings"@.len() != "chat:export"@.len());
            assert("system:settings"@.len() != "report:create"@.len());
            assert("system:settings"@.len() != "report:read"@.len());
            assert("system:settings"@.len() != "report:export"@.len());
            assert("system:settings"@.len() != "report:delete"@.len());
            assert("system:settings"@.len() != "admin:access"@.len());
        },
    }
}

/// Every permission stands in the catalog.
pub proof fn lemma_catalog_complete(p: Permission)
    ensures
        catalog().contains(p),
{
    let c = catalog();
    let i: int = match p {
        Permission::ProjectCreate => 0,
        Permission::ProjectRead => 1,
        Permission::ProjectUpdate => 2,
        Permission::ProjectDelete => 3,
        Permission::ProjectManageMembers => 4,
        Permission::UserCreate => 5,
        Permission::UserRead => 6,
        Permission::UserUpdate => 7,
        Permission::UserDelete => 8,
        Permission::UserManageRoles => 9,
        Permission::ChatRead => 10,
        Permission::ChatWrite => 11,
        Permission::ChatDelete => 12,
        Permission::ChatExport => 13,
        Permission::ReportCreate => 14,
        Permission::ReportRead => 15,
        Permission::ReportExport => 16,
        Permission::ReportDelete => 17,
        Permission::AdminAccess => 18,
        Permission::SystemSettings => 19,
    };
    assert(c[i] == p);
}


/// Encodings of a sequence of permissions, position by position.
pub open spec fn codes(ps: Seq<Permission>) -> Seq<Seq<char>> {
    ps.map_values(|p: Permission| permission_code(p))
}

/// The characters of each string of a sequence.
pub open spec fn string_views(v: Seq<String>) -> Seq<Seq<char>> {
    v.map_values(|s: String| s@)
}

/// A string outside the catalog.
pub open spec fn not_a_permission() -> spec_fn(Seq<char>) -> bool {
    |s: Seq<char>| !is_permission_code(s)
}

/// The strings of `perms` that are not catalog permissions, in order.
pub fn invalid_permissions(perms: &Vec<String>) -> (r: Vec<String>)
    ensures
        string_views(r@) == string_views(perms@).filter(not_a_permission()),
{
    let ghost all = string_views(perms@);
    let mut out: Vec<String> = Vec::new();
    let mut i: usize = 0;
    while i < perms.len()
        invariant
            i <= perms@.len(),
            all == string_views(perms@),
            string_views(out@) == all.subrange(0, i as int).filter(not_a_permission()),
        decreases perms.len() - i,
    {
        let ghost before = string_views(out@);
        proof {
            assert(all.subrange(0, i + 1).drop_last() =~= all.subrange(0, i as int));
            reveal(Seq::filter);
        }
        if Permission::from_str(perms[i].as_str()).is_none() {
            out.push(perms[i].clone());
            assert(string_views(out@) =~= before.push(all[i as int]));
        }
        i = i + 1;
    }
    assert(all.subrange(0, i as int) =~= all);
    out
}

/// The fixed bundle granted to a project's owner.
pub open spec fn owner_bundle() -> Seq<Permission> {
    seq![
        Permission::ProjectRead,
        Permission::ProjectUpdate,
        Permission::ProjectManageMembers,
        Permission::UserRead,
        Permission::ChatRead,
        Permission::ChatWrite,
        Permission::ChatDelete,
        Permission::ChatExport,
        Permission::ReportCreate,
        Permission::ReportRead,
        Permission::ReportExport,
        Permission::ReportDelete,
    ]
}

/// The fixed bundle of an ordinary project member.
pub open spec fn member_bundle() -> Seq<Permission> {
    seq![
        Permission::ProjectRead,
        Permission::ChatRead,
        Permission::ChatWrite,
        Permission::ReportCreate,
        Permission::ReportRead,
    ]
}

/// The fixed read-only bundle.
pub open spec fn viewer_bundle() -> Seq<Permission> {
    seq![Permission::ProjectRead, Permission::ChatRead, Permission::ReportRead]
}

/// Encodes each permission of `ps`, keeping their order.
pub fn encode_all(ps: &Vec<Permission>) -> (r: Vec<String>)
    ensures
        string_views(r@) == codes(ps@),
{
    let mut r: Vec<String> = Vec::new();
    let mut i: usize = 0;
    while i < ps.len()
        invariant
            i <= ps.len(),
            r@.len() == i,
            forall|j: int| 0 <= j < i ==> #[trigger] r@[j]@ == permission_code(ps@[j]),
        decreases ps.len() - i,
    {
        let s = ps[i].as_str().to_string();
        r.push(s);
        i = i + 1;
    }
    assert(string_views(r@) =~= codes(ps@));
    r
}

/// The encodings of the whole catalog, in catalog order.
pub fn get_all_permissions() -> (r: Vec<String>)
    ensures
        string_views(r@) == codes(catalog()),
{
    encode_all(&Permission::all())
}

/// The encodings of the owner bundle.
pub fn owner_permissions() -> (r: Vec<String>)
    ensures
        string_views(r@) == codes(owner_bundle()),
{
    let ps = vec![
        Permission::ProjectRead,
        Permission::ProjectUpdate,
        Permission::ProjectManageMembers,
        Permission::UserRead,
        Permission::ChatRead,
        Permission::ChatWrite,
        Permission::ChatDelete,
        Permission::ChatExport,
        Permission::ReportCreate,
        Permission::ReportRead,
        Permission::ReportExport,
        Permission::ReportDelete,
    ];
    assert(ps@ =~= owner_bundle());
    encode_all(&ps)
}

/// The encodings of the member bundle.
pub fn member_permissions() -> (r: Vec<String>)
    ensures
        string_views(r@) == codes(member_bundle()),
{
    let ps = vec![
        Permission::ProjectRead,
        Permission::ChatRead,
        Permission::ChatWrite,
        Permission::ReportCreate,
        Permission::ReportRead,
    ];
    assert(ps@ =~= member_bundle());
    encode_all(&ps)
}

/// The encodings of the viewer bundle.
pub fn viewer_permissions() -> (r: Vec<String>)
    ensures
        string_views(r@) == codes(viewer_bundle()),
{
    let ps = vec![Permission::ProjectRead, Permission::ChatRead, Permission::ReportRead];
    assert(ps@ =~= viewer_bundle());
    encode_all(&ps)
}

/// The global role flag of a user in the directory.
#[derive(Clone, Copy, Debug, PartialEq, Eq, Hash, Structural)]
pub enum UserRole {
    Admin,
    ProjectOwner,
    ProjectMember,
    Viewer,
}

/// The stable string encoding of a global role.
pub open spec fn user_role_code(r: UserRole) -> Seq<char> {
    match r {
        UserRole::Admin => "admin"@,
        UserRole::ProjectOwner => "project_owner"@,
        UserRole::ProjectMember => "project_member"@,
        UserRole::Viewer => "viewer"@,
    }
}

/// The global role whose encoding is `s`, if any.
pub open spec fn user_role_from_code(s: Seq<char>) -> Option<UserRole> {
    if s == "admin"@ {
        Some(UserRole::Admin)
    } else if s == "project_owner"@ {
        Some(UserRole::ProjectOwner)
    } else if s == "project_member"@ {
        Some(UserRole::ProjectMember)
    } else if s == "viewer"@ {
        Some(UserRole::Viewer)
    } else {
        None
    }
}

/// The bundle that a non-project (global) check grants for each global role.
pub open spec fn global_bundle(r: UserRole) -> Seq<Permission> {
    match r {
        UserRole::Admin => catalog(),
        UserRole::ProjectOwner => owner_bundle(),
        UserRole::ProjectMember => member_bundle(),
        UserRole::Viewer => viewer_bundle(),
    }
}

impl UserRole {
    /// The stable string encoding of this role.
    pub fn as_str(&self) -> (r: &'static str)
        ensures
            r@ == user_role_code(*self),
    {
        match self {
            UserRole::Admin => "admin",
            UserRole::ProjectOwner => "project_owner",
            UserRole::ProjectMember => "project_member",
            UserRole::Viewer => "viewer",
        }
    }

    /// Decodes a global role; `None` for any other string.
    pub fn from_str(s: &str) -> (r: Option<UserRole>)
        ensures
            r == user_role_from_code(s@),
    {
        if str_equal(s, "admin") {
            Some(UserRole::Admin)
        } else if str_equal(s, "project_owner") {
            Some(UserRole::ProjectOwner)
        } else if str_equal(s, "project_member") {
            Some(UserRole::ProjectMember)
        } else if str_equal(s, "viewer") {
            Some(UserRole::Viewer)
        } else {
            None
        }
    }

    /// The encodings of the bundle this role grants on a global check.
    pub fn global_permissions(&self) -> (r: Vec<String>)
        ensures
            string_views(r@) == codes(global_bundle(*self)),
    {
        match self {
            UserRole::Admin => get_all_permissions(),
            UserRole::ProjectOwner => owner_permissions(),
            UserRole::ProjectMember => member_permissions(),
            UserRole::Viewer => viewer_permissions(),
        }
    }
}

/// Decoding the encoding of a global role gives the role back.
pub proof fn lemma_user_role_round_trip(r: UserRole)
    ensures
        user_role_from_code(user_role_code(r)) == Some(r),
{
    reveal_strlit("admin");
    reveal_strlit("project_owner");
    reveal_strlit("project_member");
    reveal_strlit("viewer");
    match r {
        UserRole::Admin => {},
        UserRole::ProjectOwner => {
            assert("project_owner"@.len() != "admin"@.len());
        },
        UserRole::ProjectMember => {
            assert("project_member"@.len() != "admin"@.len());
            assert("project_member"@.len() != "project_owner"@.len());
        },
        UserRole::Viewer => {
            assert("viewer"@.len() != "admin"@.len());
            assert("viewer"@.len() != "project_owner"@.len());
            assert("viewer"@.len() != "project_member"@.len());
        },
    }
}

} // verus!
