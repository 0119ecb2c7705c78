//! Checks shared by the handlers.

use vstd::prelude::*;
use crate::error::{AppError, Collaborator, ErrorKind, UpstreamFault};
use crate::ids::{hyphenated, uuid_text};

verus! {

/// What an update or delete addressed by a unique key must report for the
/// count of records it affected: exactly one is success, none means the
/// record is absent or not the caller's, more than one breaks uniqueness.
pub open spec fn mutation_outcome(rows_affected: u64) -> Result<(), AppError> {
    if rows_affected == 0 {
        Err(AppError(ErrorKind::NotFound))
    } else if rows_affected == 1 {
        Ok(())
    } else {
        Err(AppError(ErrorKind::IntegrityViolation(rows_affected)))
    }
}

/// Classifies the count of records affected by an update or delete.
pub fn check_query_effective(rows_affected: u64) -> (outcome: Result<(), AppError>)
    ensures
        outcome == mutation_outcome(rows_affected),
{
    if rows_affected == 0 {
        return Err(AppError(ErrorKind::NotFound));
    }
    if rows_affected > 1 {
        return Err(AppError(ErrorKind::IntegrityViolation(rows_affected)));
    }
    Ok(())
}

/// What came back from a call to a collaborator of which only the status
/// matters.
#[derive(Clone, Copy, Debug, PartialEq, Eq, Structural)]
pub enum HttpReply {
    /// The call itself failed.
    Unreachable,
    /// The collaborator answered with this status.
    Status(u16),
}

/// Whether an HTTP status reports success: the statuses from 200 to 299.
pub open spec fn success(status: u16) -> bool {
    200 <= status < 300
}

/// Whether an HTTP status reports success.
pub fn is_success(status: u16) -> (ok: bool)
    ensures
        ok == success(status),
{
    200 <= status && status < 300
}

/// The answer to a request that no route serves: the status, and the text
/// shown.
pub fn handler_404() -> (answer: (u16, &'static str))
    ensures
        answer.0 == 404,
        answer.1@ == "The requested resource was not found"@,
{
    (404, "The requested resource was not found")
}

/// The address at which the job service answers for one job.
pub open spec fn job_address(root: Seq<char>, job_id: u128) -> Seq<char> {
    root + "/jobs/"@ + hyphenated(job_id)
}

/// The address at which the job service answers for one job.
pub fn job_url(root: &str, job_id: u128) -> (url: String)
    ensures
        url@ == job_address(root@, job_id),
{
    let mut url = String::from_str(root);
    url.append("/jobs/");
    let id = uuid_text(job_id);
    url.append(id.as_str());
    url
}

/// Whether the job service knows a job, as its reply tells: it does if it
/// answered with success, it does not if it answered otherwise, and nothing
/// is known if it did not answer.
pub open spec fn job_known(reply: HttpReply) -> Result<bool, AppError> {
    match reply {
        HttpReply::Unreachable => Err(
            AppError(ErrorKind::UpstreamFailure(UpstreamFault::Unreachable(Collaborator::JobService))),
        ),
        HttpReply::Status(status) => Ok(success(status)),
    }
}

/// Whether a request that names the job `job_id` may go on, as the reply
/// of the job service tells.
pub open spec fn job_check(job_id: u128, reply: HttpReply) -> Result<(), AppError> {
    match job_known(reply) {
        Err(error) => Err(error),
        Ok(true) => Ok(()),
        Ok(false) => Err(AppError(ErrorKind::UpstreamFailure(UpstreamFault::InvalidJob(job_id)))),
    }
}

/// Reads the reply of the job service: whether it knows the job.
pub fn is_job_uuid_valid(reply: HttpReply) -> (known: Result<bool, AppError>)
    ensures
        known == job_known(reply),
{
    match reply {
        HttpReply::Unreachable => Err(
            AppError(ErrorKind::UpstreamFailure(UpstreamFault::Unreachable(Collaborator::JobService))),
        ),
        HttpReply::Status(status) => Ok(is_success(status)),
    }
}

/// Fails unless the job service knows the job `job_id`.
pub fn check_job_valid(job_id: u128, reply: HttpReply) -> (outcome: Result<(), AppError>)
    ensures
        outcome == job_check(job_id, reply),
{
    match is_job_uuid_valid(reply) {
        Err(error) => Err(error),
        Ok(true) => Ok(()),
        Ok(false) => Err(AppError(ErrorKind::UpstreamFailure(UpstreamFault::InvalidJob(job_id)))),
    }
}

} // verus!
