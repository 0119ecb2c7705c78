//! The handlers of references. A reference belongs to the candidate that
//! created it; anyone may read it, and only its owner changes or deletes
//! it.

use vstd::prelude::*;
use crate::auth_headers::AuthHeaders;
use crate::dtos::reference::{reference_errors, Reference, ReferenceView};
use crate::error::{admit_payload, admitted, AppError};
use crate::storage::{OwnedBy, Scope};
use crate::validation::{is_email, is_phone, ValidationErrors};

verus! {

/// The owner under which the creation of a reference has the store keep
/// it, given the outcome of the validation of the payload: the caller. A
/// payload that breaks a rule is refused and nothing is kept.
pub open spec fn reference_owner(caller: u128, validity: Result<(), ValidationErrors>) -> Result<
    OwnedBy,
    AppError,
> {
    match admitted(validity) {
        Ok(()) => Ok(OwnedBy { owner: caller }),
        Err(error) => Err(error),
    }
}

/// The scope of a change to a reference, given the outcome of the
/// validation of the payload: the reference named, if it is the caller's.
/// A payload that breaks a rule is refused before the store is asked
/// anything.
pub open spec fn reference_update_plan(
    caller: u128,
    reference_id: u128,
    validity: Result<(), ValidationErrors>,
) -> Result<Scope, AppError> {
    match admitted(validity) {
        Ok(()) => Ok(Scope { id: reference_id, owner: Some(caller) }),
        Err(error) => Err(error),
    }
}

/// The outcome of the validation of a reference.
pub open spec fn reference_validity(reference: ReferenceView) -> Result<(), ValidationErrors> {
    reference_errors(reference, is_email(reference.email), is_phone(reference.phone_number)).verdict()
}

/// Says under which owner a reference is kept, from an outcome of the
/// validation of its payload.
pub fn plan_reference_creation(identity: &AuthHeaders, validity: Result<(), ValidationErrors>) -> (plan:
    Result<OwnedBy, AppError>)
    ensures
        plan == reference_owner(identity@.user_id, validity),
{
    match admit_payload(validity) {
        Ok(()) => Ok(OwnedBy { owner: identity.user_id }),
        Err(error) => Err(error),
    }
}

/// Validates a reference to create and says under which owner the store is
/// to keep it.
pub fn create_reference(identity: &AuthHeaders, reference: &Reference) -> (plan: Result<
    OwnedBy,
    AppError,
>)
    ensures
        plan == reference_owner(identity@.user_id, reference_validity(reference@)),
{
    plan_reference_creation(identity, reference.validate())
}

/// Says whose references a listing shows: those of the candidate named.
pub fn get_references(user_id: u128) -> (selection: OwnedBy)
    ensures
        selection == (OwnedBy { owner: user_id }),
{
    OwnedBy { owner: user_id }
}

/// Says what the lookup of a reference is aimed at: the reference named,
/// whoever owns it.
pub fn get_reference(reference_id: u128) -> (scope: Scope)
    ensures
        scope == (Scope { id: reference_id, owner: None }),
{
    Scope { id: reference_id, owner: None }
}

/// Says what a change to a reference is aimed at, from an outcome of the
/// validation of its payload.
pub fn plan_reference_update(
    identity: &AuthHeaders,
    reference_id: u128,
    validity: Result<(), ValidationErrors>,
) -> (plan: Result<Scope, AppError>)
    ensures
        plan == reference_update_plan(identity@.user_id, reference_id, validity),
{
    match admit_payload(validity) {
        Ok(()) => Ok(Scope { id: reference_id, owner: Some(identity.user_id) }),
        Err(error) => Err(error),
    }
}

/// Validates a change to a reference and says what it is aimed at.
pub fn update_reference(identity: &AuthHeaders, reference_id: u128, reference: &Reference) -> (plan:
    Result<Scope, AppError>)
    ensures
        plan == reference_update_plan(
            identity@.user_id,
            reference_id,
            reference_validity(reference@),
        ),
{
    plan_reference_update(identity, reference_id, reference.validate())
}

/// Says what the delete of a reference is aimed at: the reference named,
/// if it is the caller's.
pub fn delete_reference(identity: &AuthHeaders, reference_id: u128) -> (scope: Scope)
    ensures
        scope == (Scope { id: reference_id, owner: Some(identity@.user_id) }),
{
    Scope { id: reference_id, owner: Some(identity.user_id) }
}

} // verus!
