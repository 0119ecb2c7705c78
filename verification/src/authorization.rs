//! Role gates: the stage of a route that lets a request through only if the
//! caller holds the role that the route asks for.

use vstd::prelude::*;
use crate::auth_headers::AuthHeaders;
use crate::error::{AppError, ErrorKind, Role};

verus! {

/// Whether a caller with these roles passes a gate that asks for
/// `required`. The role must be among the caller's, exactly; a gate that
/// asks for `Unknown` is passed by nobody.
pub open spec fn holds_role(roles: Seq<Role>, required: Role) -> bool {
    required != Role::Unknown && roles.contains(required)
}

/// What a gate that asks for `required` answers. A refusal names the role
/// asked for, and nothing else.
pub open spec fn gate(roles: Seq<Role>, required: Role) -> Result<(), AppError> {
    if holds_role(roles, required) {
        Ok(())
    } else {
        Err(AppError(ErrorKind::Forbidden(required)))
    }
}

/// Lets the caller through if it holds `required`.
pub fn require_role(identity: &AuthHeaders, required: Role) -> (verdict: Result<(), AppError>)
    ensures
        verdict == gate(identity@.roles, required),
{
    if required != Role::Unknown && identity.has_role(required) {
        Ok(())
    } else {
        Err(AppError(ErrorKind::Forbidden(required)))
    }
}

/// Lets the caller through if it is an administrator.
pub fn is_admin(identity: &AuthHeaders) -> (verdict: Result<(), AppError>)
    ensures
        verdict == gate(identity@.roles, Role::Admin),
{
    require_role(identity, Role::Admin)
}

} // verus!
