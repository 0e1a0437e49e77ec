use vstd::prelude::*;

use crate::permissions::Permission;

verus! {

/// Why an edit was refused.
#[derive(Debug, Clone, Copy, PartialEq, Eq, Structural)]
pub enum Error {
    /// The request's shape or ranges are wrong.
    FailedValidation,
    /// A referenced channel or attachment does not exist.
    NotFound,
    /// The request contradicts itself or the record.
    InvalidOperation,
    /// The actor lacks a right of the server.
    MissingPermission { permission: Permission },
    /// The actor lacks the platform-wide privilege.
    NotPrivileged,
}

} // verus!
