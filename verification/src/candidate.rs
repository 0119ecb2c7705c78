//! The handlers of candidates. Creating and updating a candidate take
//! several calls to collaborators and to the store: each is a sequence of
//! steps, of which this module decides every one.

use vstd::prelude::*;
use crate::auth_headers::{AuthHeaders, Identity};
use crate::authorization::{gate, is_admin};
use crate::dtos::candidate::{
    create_candidate_errors, candidate_errors, Candidate, CandidateView, CreateCandidate,
    CreateCandidateView, SimpleCandidate,
};
use crate::dtos::list_candidate::{list_candidate_errors, ListCandidate};
use crate::error::{admit_payload, admitted, AppError, ErrorKind, Role, UpstreamFault};
use crate::identity_provider::{
    create_keycloak_user, provisioning_step, IdpAction, IdpActionView, IdpReply, IdpReplyView,
    Provisioning, ProvisioningView,
};
use crate::listing::{list_candidates, listing, summaries, views};
use crate::storage::{conclude_insert, conclude_mutation, insert_result, mutation_result, Scope, StoreReply};
use crate::utils::{check_job_valid, job_check, HttpReply};
use crate::validation::{is_email, is_phone, ValidationErrors};

verus! {

impl Candidate {
    /// The candidate as it is on record once it has an identifier.
    pub fn with_id(self, id: u128) -> (stored: Candidate)
        ensures
            stored@ == (CandidateView { id: Some(id), ..self@ }),
    {
        Candidate { id: Some(id), ..self }
    }
}

/// What came back from the call that a creation asked for last.
#[derive(Debug, PartialEq, Eq)]
pub enum CreationEvent {
    /// The reply of the job service.
    Job(HttpReply),
    /// A reply of the identity provider.
    Idp(IdpReply),
    /// The answer of the store.
    Stored(StoreReply),
}

/// What a `CreationEvent` holds.
pub enum CreationEventView {
    Job(HttpReply),
    Idp(IdpReplyView),
    Stored(StoreReply),
}

impl View for CreationEvent {
    type V = CreationEventView;

    open spec fn view(&self) -> CreationEventView {
        match *self {
            CreationEvent::Job(reply) => CreationEventView::Job(reply),
            CreationEvent::Idp(reply) => CreationEventView::Idp(reply@),
            CreationEvent::Stored(reply) => CreationEventView::Stored(reply),
        }
    }
}

/// How far the creation of a candidate has come.
#[derive(Debug, PartialEq, Eq)]
pub enum Creation {
    /// The job service was asked whether it knows the candidate's job.
    CheckingJob,
    /// The account of the candidate is being opened.
    Provisioning(Provisioning),
    /// The account is open under this identifier; the store was asked to
    /// keep the candidate under it.
    Persisting { user_id: u128 },
    /// The candidate is created, or could not be.
    Finished,
}

/// What a `Creation` holds.
pub enum CreationView {
    CheckingJob,
    Provisioning(ProvisioningView),
    Persisting { user_id: u128 },
    Finished,
}

impl View for Creation {
    type V = CreationView;

    open spec fn view(&self) -> CreationView {
        match *self {
            Creation::CheckingJob => CreationView::CheckingJob,
            Creation::Provisioning(account) => CreationView::Provisioning(account@),
            Creation::Persisting { user_id } => CreationView::Persisting { user_id },
            Creation::Finished => CreationView::Finished,
        }
    }
}

/// What the surrounding program has to do next for a creation.
#[derive(Debug, PartialEq, Eq)]
pub enum CreationAction {
    /// Ask the job service for this job.
    CheckJob { job_id: u128 },
    /// Ask the identity provider for a token.
    RequestToken,
    /// Have the identity provider create the user.
    CreateUser { authorization: String },
    /// Have the identity provider set the password of this user.
    SetPassword { authorization: String, user_id: u128 },
    /// Have the store keep the candidate under this identifier.
    Insert { user_id: u128 },
    /// Nothing more: the candidate is on record under this identifier, or
    /// the request has failed and nothing is on record.
    Done(Result<u128, AppError>),
}

/// What a `CreationAction` holds.
pub enum CreationActionView {
    CheckJob { job_id: u128 },
    RequestToken,
    CreateUser { authorization: Seq<char> },
    SetPassword { authorization: Seq<char>, user_id: u128 },
    Insert { user_id: u128 },
    Done(Result<u128, AppError>),
}

impl View for CreationAction {
    type V = CreationActionView;

    open spec fn view(&self) -> CreationActionView {
        match *self {
            CreationAction::CheckJob { job_id } => CreationActionView::CheckJob { job_id },
            CreationAction::RequestToken => CreationActionView::RequestToken,
            CreationAction::CreateUser { authorization } => CreationActionView::CreateUser {
                authorization: authorization@,
            },
            CreationAction::SetPassword { authorization, user_id } => CreationActionView::SetPassword {
                authorization: authorization@,
                user_id,
            },
            CreationAction::Insert { user_id } => CreationActionView::Insert { user_id },
            CreationAction::Done(outcome) => CreationActionView::Done(outcome),
        }
    }
}

/// The end of a creation that failed.
pub open spec fn creation_failed(error: AppError) -> (CreationView, CreationActionView) {
    (CreationView::Finished, CreationActionView::Done(Err(error)))
}

/// How a creation goes on after a step of the opening of its account: with
/// the next call to the identity provider, with the insert once the
/// account is open, or not at all if the account could not be opened.
pub open spec fn after_account_step(step: (ProvisioningView, IdpActionView)) -> (
    CreationView,
    CreationActionView,
) {
    match step.1 {
        IdpActionView::RequestToken => (
            CreationView::Provisioning(step.0),
            CreationActionView::RequestToken,
        ),
        IdpActionView::CreateUser { authorization } => (
            CreationView::Provisioning(step.0),
            CreationActionView::CreateUser { authorization },
        ),
        IdpActionView::SetPassword { authorization, user_id } => (
            CreationView::Provisioning(step.0),
            CreationActionView::SetPassword { authorization, user_id },
        ),
        IdpActionView::Done(Ok(user_id)) => (
            CreationView::Persisting { user_id },
            CreationActionView::Insert { user_id },
        ),
        IdpActionView::Done(Err(error)) => creation_failed(error),
    }
}

/// How the creation of a candidate starts, given whether the e-mail address
/// and the phone number of the payload are well formed: a payload that
/// breaks a rule ends it at once, before anything is asked of anyone; a
/// valid one has the job service asked for the candidate's job.
pub open spec fn creation_start(dto: CreateCandidateView, email_ok: bool, phone_ok: bool) -> (
    CreationView,
    CreationActionView,
) {
    match admitted(create_candidate_errors(dto, email_ok, phone_ok).verdict()) {
        Ok(()) => (
            CreationView::CheckingJob,
            CreationActionView::CheckJob { job_id: dto.candidate.job_id },
        ),
        Err(error) => creation_failed(error),
    }
}

/// The step that the creation of a candidate for the job `job_id` takes on
/// an event. The job is checked first, the account is opened next, and the
/// candidate is stored last, under the identifier of the account. Every
/// failure ends the creation; an event that does not answer what was asked
/// last ends it as unexpected.
pub open spec fn creation_step(job_id: u128, state: CreationView, event: CreationEventView) -> (
    CreationView,
    CreationActionView,
) {
    match (state, event) {
        (CreationView::CheckingJob, CreationEventView::Job(reply)) => match job_check(job_id, reply) {
            Ok(()) => (
                CreationView::Provisioning(ProvisioningView::AwaitingToken),
                CreationActionView::RequestToken,
            ),
            Err(error) => creation_failed(error),
        },
        (CreationView::Provisioning(account), CreationEventView::Idp(reply)) => after_account_step(
            provisioning_step(account, reply),
        ),
        (CreationView::Persisting { user_id }, CreationEventView::Stored(reply)) => match insert_result(
            reply,
        ) {
            Ok(()) => (CreationView::Finished, CreationActionView::Done(Ok(user_id))),
            Err(error) => creation_failed(error),
        },
        _ => creation_failed(AppError(ErrorKind::UpstreamFailure(UpstreamFault::UnexpectedReply))),
    }
}

/// Starts the creation of a candidate from an outcome of the validation of
/// its payload.
pub fn start_creation(dto: &CreateCandidate, validity: Result<(), ValidationErrors>) -> (first: (
    Creation,
    CreationAction,
))
    ensures
        (first.0@, first.1@) == match admitted(validity) {
            Ok(()) => (
                CreationView::CheckingJob,
                CreationActionView::CheckJob { job_id: dto@.candidate.job_id },
            ),
            Err(error) => creation_failed(error),
        },
{
    match admit_payload(validity) {
        Ok(()) => (Creation::CheckingJob, CreationAction::CheckJob { job_id: dto.candidate.job_id }),
        Err(error) => (Creation::Finished, CreationAction::Done(Err(error))),
    }
}

/// Starts the creation of a candidate: validates the payload and says what
/// is to be done first.
pub fn begin_create_candidate(dto: &CreateCandidate) -> (first: (Creation, CreationAction))
    ensures
        (first.0@, first.1@) == creation_start(
            dto@,
            is_email(dto@.candidate.email),
            is_phone(dto@.candidate.phone_number),
        ),
{
    start_creation(dto, dto.validate())
}

/// Takes the creation of a candidate one step further on the event that
/// answers what was asked last.
pub fn create_candidate(dto: &CreateCandidate, state: Creation, event: CreationEvent) -> (next: (
    Creation,
    CreationAction,
))
    ensures
        (next.0@, next.1@) == creation_step(dto@.candidate.job_id, state@, event@),
{
    match (state, event) {
        (Creation::CheckingJob, CreationEvent::Job(reply)) => match check_job_valid(
            dto.candidate.job_id,
            reply,
        ) {
            Ok(()) => (
                Creation::Provisioning(Provisioning::AwaitingToken),
                CreationAction::RequestToken,
            ),
            Err(error) => (Creation::Finished, CreationAction::Done(Err(error))),
        },
        (Creation::Provisioning(account), CreationEvent::Idp(reply)) => {
            let (account, action) = create_keycloak_user(account, reply);
            match action {
                IdpAction::RequestToken => (Creation::Provisioning(account), CreationAction::RequestToken),
                IdpAction::CreateUser { authorization } => (
                    Creation::Provisioning(account),
                    CreationAction::CreateUser { authorization },
                ),
                IdpAction::SetPassword { authorization, user_id } => (
                    Creation::Provisioning(account),
                    CreationAction::SetPassword { authorization, user_id },
                ),
                IdpAction::Done(Ok(user_id)) => (
                    Creation::Persisting { user_id },
                    CreationAction::Insert { user_id },
                ),
                IdpAction::Done(Err(error)) => (Creation::Finished, CreationAction::Done(Err(error))),
            }
        },
        (Creation::Persisting { user_id }, CreationEvent::Stored(reply)) => match conclude_insert(reply) {
            Ok(()) => (Creation::Finished, CreationAction::Done(Ok(user_id))),
            Err(error) => (Creation::Finished, CreationAction::Done(Err(error))),
        },
        _ => (
            Creation::Finished,
            CreationAction::Done(Err(AppError(ErrorKind::UpstreamFailure(UpstreamFault::UnexpectedReply)))),
        ),
    }
}

/// What came back from the call that an update asked for last.
#[derive(Clone, Copy, Debug, PartialEq, Eq, Structural)]
pub enum UpdateEvent {
    /// The reply of the job service.
    Job(HttpReply),
    /// The answer of the store.
    Stored(StoreReply),
}

/// How far the update of a candidate has come.
#[derive(Clone, Copy, Debug, PartialEq, Eq, Structural)]
pub enum Update {
    /// The job service was asked whether it knows the candidate's job.
    CheckingJob,
    /// The store was asked to change the candidate.
    Updating,
    /// The candidate is changed, or could not be.
    Finished,
}

/// What the surrounding program has to do next for an update.
#[derive(Clone, Copy, Debug, PartialEq, Eq)]
pub enum UpdateAction {
    /// Ask the job service for this job.
    CheckJob { job_id: u128 },
    /// Have the store change the candidate within this scope.
    Store(Scope),
    /// Nothing more: the candidate is changed, or the request has failed.
    Done(Result<(), AppError>),
}

/// How the update of the caller's own candidate starts, given the outcome
/// of the validation of the payload.
pub open spec fn update_start(job_id: u128, validity: Result<(), ValidationErrors>) -> (
    Update,
    UpdateAction,
) {
    match admitted(validity) {
        Ok(()) => (Update::CheckingJob, UpdateAction::CheckJob { job_id }),
        Err(error) => (Update::Finished, UpdateAction::Done(Err(error))),
    }
}

/// The step that the update of the caller's own candidate takes on an
/// event. The candidate changed is the one under the caller's identifier,
/// whatever identifier the payload carries, and the store must have
/// changed exactly one record.
pub open spec fn update_step(caller: u128, job_id: u128, state: Update, event: UpdateEvent) -> (
    Update,
    UpdateAction,
) {
    match (state, event) {
        (Update::CheckingJob, UpdateEvent::Job(reply)) => match job_check(job_id, reply) {
            Ok(()) => (Update::Updating, UpdateAction::Store(Scope { id: caller, owner: None })),
            Err(error) => (Update::Finished, UpdateAction::Done(Err(error))),
        },
        (Update::Updating, UpdateEvent::Stored(reply)) => (
            Update::Finished,
            UpdateAction::Done(mutation_result(reply)),
        ),
        _ => (
            Update::Finished,
            UpdateAction::Done(Err(AppError(ErrorKind::UpstreamFailure(UpstreamFault::UnexpectedReply)))),
        ),
    }
}

/// Starts the update of the caller's own candidate from an outcome of the
/// validation of its payload.
pub fn start_update(candidate: &Candidate, validity: Result<(), ValidationErrors>) -> (first: (
    Update,
    UpdateAction,
))
    ensures
        first == update_start(candidate@.job_id, validity),
{
    match admit_payload(validity) {
        Ok(()) => (Update::CheckingJob, UpdateAction::CheckJob { job_id: candidate.job_id }),
        Err(error) => (Update::Finished, UpdateAction::Done(Err(error))),
    }
}

/// Starts the update of the caller's own candidate: validates the payload
/// and says what is to be done first.
pub fn begin_update_candidate(candidate: &Candidate) -> (first: (Update, UpdateAction))
    ensures
        first == update_start(
            candidate@.job_id,
            candidate_errors(
                candidate@,
                is_email(candidate@.email),
                is_phone(candidate@.phone_number),
            ).verdict(),
        ),
{
    start_update(candidate, candidate.validate())
}

/// Takes the update of the caller's own candidate one step further on the
/// event that answers what was asked last.
pub fn update_candidate(
    identity: &AuthHeaders,
    candidate: &Candidate,
    state: Update,
    event: UpdateEvent,
) -> (next: (Update, UpdateAction))
    ensures
        next == update_step(identity@.user_id, candidate@.job_id, state, event),
{
    match (state, event) {
        (Update::CheckingJob, UpdateEvent::Job(reply)) => match check_job_valid(candidate.job_id, reply) {
            Ok(()) => (
                Update::Updating,
                UpdateAction::Store(Scope { id: identity.user_id, owner: None }),
            ),
            Err(error) => (Update::Finished, UpdateAction::Done(Err(error))),
        },
        (Update::Updating, UpdateEvent::Stored(reply)) => (
            Update::Finished,
            UpdateAction::Done(conclude_mutation(reply)),
        ),
        _ => (
            Update::Finished,
            UpdateAction::Done(Err(AppError(ErrorKind::UpstreamFailure(UpstreamFault::UnexpectedReply)))),
        ),
    }
}

/// The scope of the delete of a candidate by an administrator: the
/// candidate named, whoever owns it. A caller who is no administrator is
/// refused, and is told nothing of the candidate.
pub open spec fn delete_plan(identity: Identity, user_id: u128) -> Result<Scope, AppError> {
    match gate(identity.roles, Role::Admin) {
        Ok(()) => Ok(Scope { id: user_id, owner: None }),
        Err(error) => Err(error),
    }
}

/// Says what the delete of a candidate is aimed at, or refuses it.
pub fn delete_candidate(identity: &AuthHeaders, user_id: u128) -> (plan: Result<Scope, AppError>)
    ensures
        plan == delete_plan(identity@, user_id),
{
    match is_admin(identity) {
        Ok(()) => Ok(Scope { id: user_id, owner: None }),
        Err(error) => Err(error),
    }
}

/// Says what the lookup of a candidate by its identifier is aimed at: the
/// candidate named, whoever asks.
pub fn get_candidate(identity: &AuthHeaders, user_id: u128) -> (scope: Scope)
    ensures
        scope == (Scope { id: user_id, owner: None }),
{
    Scope { id: user_id, owner: None }
}

/// Says what the lookup of the caller's own candidate is aimed at: the
/// candidate under the caller's identifier.
pub fn get_candidate_self(identity: &AuthHeaders) -> (scope: Scope)
    ensures
        scope == (Scope { id: identity@.user_id, owner: None }),
{
    Scope { id: identity.user_id, owner: None }
}

/// Whether `outcome` is what a listing of `rows` for `query` must return:
/// the listing if the query is valid, and the broken rule if it is not.
pub open spec fn listed(
    outcome: Result<Vec<SimpleCandidate>, AppError>,
    rows: Seq<CandidateView>,
    query: ListCandidate,
) -> bool {
    match admitted(list_candidate_errors(query).verdict()) {
        Ok(()) => outcome matches Ok(shown) && summaries(shown@) == listing(rows, query),
        Err(error) => outcome matches Err(e) && e == error,
    }
}

/// Lists the candidates on record that answer a query: the query is
/// validated, and a valid one gets its listing.
pub fn get_candidates(query: &ListCandidate, rows: &Vec<Candidate>) -> (outcome: Result<
    Vec<SimpleCandidate>,
    AppError,
>)
    ensures
        listed(outcome, views(rows@), *query),
{
    match admit_payload(query.validate()) {
        Ok(()) => Ok(list_candidates(rows, query)),
        Err(error) => Err(error),
    }
}

} // verus!
