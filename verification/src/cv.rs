//! The handlers of CV files. Each candidate has at most one, kept in
//! the object store under a key made from the candidate's identifier.

use vstd::prelude::*;
use crate::auth_headers::AuthHeaders;
use crate::error::{AppError, ErrorKind};
use crate::ids::{hyphenated, uuid_text};
use crate::validation::ValidationErrors;

verus! {

/// The key under which the CV of a candidate is kept.
pub open spec fn cv_key(user_id: u128) -> Seq<char> {
    hyphenated(user_id) + "_cv"@
}

/// The failure of an upload that carries no file.
pub open spec fn no_file() -> AppError {
    AppError(ErrorKind::ValidationFailed(ValidationErrors { file: true, ..ValidationErrors::none() }))
}

/// The key under which the CV of a candidate is kept.
pub fn get_cv_filename_from_user(user_id: u128) -> (key: String)
    ensures
        key@ == cv_key(user_id),
{
    uuid_text(user_id).concat("_cv")
}

/// What an upload has the object store keep: the first file sent, under
/// the key of the caller's CV. An upload without a file is refused.
pub fn post_cv(identity: &AuthHeaders, file: Option<Vec<u8>>) -> (plan: Result<
    (String, Vec<u8>),
    AppError,
>)
    ensures
        match plan {
            Ok((key, bytes)) => key@ == cv_key(identity@.user_id) && file == Some(bytes),
            Err(error) => file is None && error == no_file(),
        },
{
    match file {
        Some(bytes) => Ok((get_cv_filename_from_user(identity.user_id), bytes)),
        None => Err(AppError::invalid(ValidationErrors { file: true, ..ValidationErrors::new() })),
    }
}

/// The key of the CV of the candidate named.
pub fn get_cv(user_id: u128) -> (key: String)
    ensures
        key@ == cv_key(user_id),
{
    get_cv_filename_from_user(user_id)
}

/// The key of the caller's own CV.
pub fn get_cv_self(identity: &AuthHeaders) -> (key: String)
    ensures
        key@ == cv_key(identity@.user_id),
{
    get_cv_filename_from_user(identity.user_id)
}

} // verus!
