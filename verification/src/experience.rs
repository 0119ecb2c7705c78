//! The handlers of experiences. An experience belongs to the candidate
//! that created it, and only that candidate reads, changes or deletes it.

use vstd::prelude::*;
use crate::auth_headers::AuthHeaders;
use crate::dtos::experience::{experience_errors, Experience, ExperienceView};
use crate::error::{admit_payload, admitted, AppError};
use crate::storage::{OwnedBy, Scope};

verus! {

/// What the creation of an experience has the store keep: the payload, as
/// an experience of `caller`, whatever owner the payload names. A payload
/// that breaks a rule is refused and nothing is kept.
pub open spec fn experience_to_store(caller: u128, experience: ExperienceView) -> Result<
    ExperienceView,
    AppError,
> {
    match admitted(experience_errors(experience).verdict()) {
        Ok(()) => Ok(ExperienceView { candidate_id: caller, ..experience }),
        Err(error) => Err(error),
    }
}

/// The scope of a change to an experience: the experience named, if it is
/// the caller's. A payload that breaks a rule is refused before the store
/// is asked anything.
pub open spec fn experience_update_plan(
    caller: u128,
    experience_id: u128,
    experience: ExperienceView,
) -> Result<Scope, AppError> {
    match admitted(experience_errors(experience).verdict()) {
        Ok(()) => Ok(Scope { id: experience_id, owner: Some(caller) }),
        Err(error) => Err(error),
    }
}

/// Validates an experience to create and says what the store is to keep.
pub fn create_experience(identity: &AuthHeaders, experience: Experience) -> (plan: Result<
    Experience,
    AppError,
>)
    ensures
        match plan {
            Ok(record) => experience_to_store(identity@.user_id, experience@) == Ok::<
                ExperienceView,
                AppError,
            >(record@),
            Err(error) => experience_to_store(identity@.user_id, experience@) == Err::<
                ExperienceView,
                AppError,
            >(error),
        },
{
    match admit_payload(experience.validate()) {
        Ok(()) => Ok(Experience { candidate_id: identity.user_id, ..experience }),
        Err(error) => Err(error),
    }
}

/// Says whose experiences a listing shows: the caller's.
pub fn get_experiences(identity: &AuthHeaders) -> (selection: OwnedBy)
    ensures
        selection == (OwnedBy { owner: identity@.user_id }),
{
    OwnedBy { owner: identity.user_id }
}

/// Says what the lookup of an experience is aimed at: the experience
/// named, if it is the caller's.
pub fn get_experience(identity: &AuthHeaders, experience_id: u128) -> (scope: Scope)
    ensures
        scope == (Scope { id: experience_id, owner: Some(identity@.user_id) }),
{
    Scope { id: experience_id, owner: Some(identity.user_id) }
}

/// Validates a change to an experience and says what it is aimed at.
pub fn update_experience(identity: &AuthHeaders, experience_id: u128, experience: &Experience) -> (plan:
    Result<Scope, AppError>)
    ensures
        plan == experience_update_plan(identity@.user_id, experience_id, experience@),
{
    match admit_payload(experience.validate()) {
        Ok(()) => Ok(Scope { id: experience_id, owner: Some(identity.user_id) }),
        Err(error) => Err(error),
    }
}

/// Says what the delete of an experience is aimed at: the experience
/// named, if it is the caller's.
pub fn delete_experience(identity: &AuthHeaders, experience_id: u128) -> (scope: Scope)
    ensures
        scope == (Scope { id: experience_id, owner: Some(identity@.user_id) }),
{
    Scope { id: experience_id, owner: Some(identity.user_id) }
}

} // verus!
