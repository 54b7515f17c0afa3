use vstd::prelude::*;

verus! {

/// The broad class of a failure.
#[derive(Clone, Copy, Debug, PartialEq, Eq, Structural)]
pub enum ErrorKind {
    NotFound,
    Validation,
    Conflict,
    AccessDenied,
    Internal,
}

/// Why an operation of the access-control core failed.
#[derive(Clone, Debug)]
pub enum RbacError {
    /// A role, membership, user or project is absent.
    NotFound,
    /// Permission strings outside the catalog, in the order given.
    InvalidPermissions(Vec<String>),
    /// A name or description whose length is out of bounds.
    InvalidField,
    /// System roles can be neither changed nor deleted.
    SystemRoleImmutable,
    /// The role is still referenced by this many memberships.
    RoleInUse(usize),
    /// The identifier chosen for a new role is already taken.
    DuplicateRoleId,
    /// No authenticated caller.
    Unauthenticated,
    /// The tenant does not match, or a permission is missing.
    AccessDenied,
    /// The store could not be reached.
    Internal,
}

/// The class of each failure.
pub open spec fn kind_of(e: RbacError) -> ErrorKind {
    match e {
        RbacError::NotFound => ErrorKind::NotFound,
        RbacError::InvalidPermissions(_) => ErrorKind::Validation,
        RbacError::InvalidField => ErrorKind::Validation,
        RbacError::SystemRoleImmutable => ErrorKind::Conflict,
        RbacError::RoleInUse(_) => ErrorKind::Conflict,
        RbacError::DuplicateRoleId => ErrorKind::Conflict,
        RbacError::Unauthenticated => ErrorKind::AccessDenied,
        RbacError::AccessDenied => ErrorKind::AccessDenied,
        RbacError::Internal => ErrorKind::Internal,
    }
}

impl RbacError {
    /// The class of this failure.
    pub fn kind(&self) -> (r: ErrorKind)
        ensures
            r == kind_of(*self),
    {
        match self {
            RbacError::NotFound => ErrorKind::NotFound,
            RbacError::InvalidPermissions(_) => ErrorKind::Validation,
            RbacError::InvalidField => ErrorKind::Validation,
            RbacError::SystemRoleImmutable => ErrorKind::Conflict,
            RbacError::RoleInUse(_) => ErrorKind::Conflict,
            RbacError::DuplicateRoleId => ErrorKind::Conflict,
            RbacError::Unauthenticated => ErrorKind::AccessDenied,
            RbacError::AccessDenied => ErrorKind::AccessDenied,
            RbacError::Internal => ErrorKind::Internal,
        }
    }
}

} // verus!
