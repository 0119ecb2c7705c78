//! What holds of the service as a whole, stated over the rules that the
//! handlers are verified against.

use vstd::prelude::*;
use crate::auth_headers::{extraction, role_of, roles_of, GatewayHeadersView, Identity};
use crate::authorization::gate;
use crate::candidate::{
    creation_start, creation_step, delete_plan, update_step, CreationActionView, CreationEventView,
    CreationView, Update, UpdateAction, UpdateEvent,
};
use crate::dtos::candidate::{
    candidate_errors, create_candidate_errors, Candidate, CandidateView, CreateCandidateView,
};
use crate::dtos::experience::{experience_errors, ExperienceView};
use crate::dtos::list_candidate::{list_candidate_errors, ListCandidate, SubscriptionLevel};
use crate::error::{AppError, ErrorKind, Role};
use crate::identity_provider::ProvisioningView;
use crate::listing::{answering, answers, capped, listing, summary};
use crate::storage::{
    affected, fetch_result, in_scope, lemma_none_in_scope, lemma_unique_ids_affect_one,
    mutation_result, unique_ids, Fetched, Owned, Scope, StoreReply,
};
use crate::text::{lemma_split_commas_nonempty, split_commas};
use crate::validation::{Entity, Violation};

verus! {

/// A set of headers that lacks any of the three gives no identity: the
/// extractor fails, and reports a missing header.
pub proof fn law_missing_header_is_reported(headers: GatewayHeadersView)
    requires
        headers.user_id is None || headers.user_roles is None || headers.request_id is None,
    ensures
        extraction(headers) matches Err(AppError(ErrorKind::MissingHeader(_))),
{
}

/// A set of headers gives an identity only if all three are present, and
/// then the identity carries one role for each piece of the roles header.
pub proof fn law_identity_needs_all_headers(headers: GatewayHeadersView)
    requires
        extraction(headers) is Ok,
    ensures
        headers.user_id is Some,
        headers.user_roles is Some,
        headers.request_id is Some,
        extraction(headers)->Ok_0.roles == roles_of(headers.user_roles->Some_0),
{
}

/// A roles header that is present lists at least one role, even when it is
/// empty: the result is no error, only a caller without a role to trust.
pub proof fn law_roles_header_lists_a_role(value: Seq<char>)
    ensures
        roles_of(value).len() >= 1,
        roles_of(Seq::empty()) == seq![Role::Unknown],
{
    lemma_split_commas_nonempty(value);
    assert("client_candidate"@.len() > 0 && "client_admin"@.len() > 0) by {
        reveal_strlit("client_candidate");
        reveal_strlit("client_admin");
    }
    assert(roles_of(Seq::empty()) =~= seq![Role::Unknown]);
}

/// Every token but the two recognised ones stands for the unknown role.
pub proof fn law_unrecognised_token_is_unknown(token: Seq<char>)
    requires
        token != "client_candidate"@,
        token != "client_admin"@,
    ensures
        role_of(token) == Role::Unknown,
{
}

/// A caller whose roles are all unknown passes no gate, whatever role the
/// gate asks for; in particular not one that asks for an administrator.
pub proof fn law_unknown_passes_no_gate(roles: Seq<Role>, required: Role)
    requires
        forall|i: int| 0 <= i < roles.len() ==> roles[i] == Role::Unknown,
    ensures
        gate(roles, required) == Err::<(), AppError>(AppError(ErrorKind::Forbidden(required))),
        gate(roles, Role::Admin) == Err::<(), AppError>(AppError(ErrorKind::Forbidden(Role::Admin))),
{
}

/// A roles header of which no piece is a recognised token gives a caller
/// that is refused wherever an administrator is asked for.
pub proof fn law_unrecognised_roles_are_refused(value: Seq<char>)
    requires
        forall|i: int|
            0 <= i < split_commas(value).len() ==> {
                &&& (#[trigger] split_commas(value)[i]) != "client_candidate"@
                &&& split_commas(value)[i] != "client_admin"@
            },
    ensures
        gate(roles_of(value), Role::Admin) == Err::<(), AppError>(
            AppError(ErrorKind::Forbidden(Role::Admin)),
        ),
{
    let roles = roles_of(value);
    assert forall|i: int| 0 <= i < roles.len() implies roles[i] == Role::Unknown by {
        assert(roles[i] == role_of(split_commas(value)[i]));
    }
}

/// A candidate that does not become available strictly before it stops
/// being so fails validation with the rule across fields reported, tagged
/// as the candidate's, whatever its single fields are like.
pub proof fn law_candidate_window_is_enforced(candidate: CandidateView, email_ok: bool, phone_ok: bool)
    requires
        !candidate.available_from.before(candidate.available_to),
    ensures
        candidate_errors(candidate, email_ok, phone_ok).verdict() is Err,
        candidate_errors(candidate, email_ok, phone_ok).schema == Some(Entity::Candidate),
        candidate_errors(candidate, email_ok, phone_ok).holds(Violation::Schema(Entity::Candidate)),
{
}

/// The rule across fields is judged apart from the single fields: whether
/// it is reported depends on the two ends of the window alone, and what is
/// reported of the single fields does not depend on the window.
pub proof fn law_schema_rule_is_independent(
    candidate: CandidateView,
    other: CandidateView,
    email_ok: bool,
    phone_ok: bool,
)
    requires
        other == (CandidateView {
            available_from: other.available_from,
            available_to: other.available_to,
            ..candidate
        }),
    ensures
        candidate_errors(candidate, email_ok, phone_ok).schema is Some
            <==> !candidate.available_from.before(candidate.available_to),
        candidate_errors(other, email_ok, phone_ok).first_name == candidate_errors(
            candidate,
            email_ok,
            phone_ok,
        ).first_name,
        candidate_errors(other, email_ok, phone_ok).last_name == candidate_errors(
            candidate,
            email_ok,
            phone_ok,
        ).last_name,
        candidate_errors(other, email_ok, phone_ok).description == candidate_errors(
            candidate,
            email_ok,
            phone_ok,
        ).description,
        candidate_errors(other, email_ok, phone_ok).email == !email_ok,
        candidate_errors(other, email_ok, phone_ok).phone_number == !phone_ok,
{
}

/// An experience that does not start strictly before it ends, and a query
/// whose time does not start strictly before it ends, fail validation with
/// the rule across fields reported under their own tag.
pub proof fn law_ordered_pairs_are_enforced(experience: ExperienceView, query: ListCandidate)
    ensures
        !experience.start_time.before(experience.end_time) ==> experience_errors(experience).verdict()
            is Err && experience_errors(experience).schema == Some(Entity::Experience),
        !query.start_date.before(query.end_date) ==> list_candidate_errors(query).verdict() is Err
            && list_candidate_errors(query).schema == Some(Entity::ListCandidate),
{
}

/// An update or delete aimed at a record that is not the caller's affects
/// no record, and the handler reports that nothing was found.
pub proof fn law_foreign_record_is_not_found(records: Seq<Owned>, target: u128, caller: u128)
    requires
        forall|i: int|
            0 <= i < records.len() && (#[trigger] records[i]).id == target ==> records[i].owner
                != caller,
    ensures
        affected(records, Scope { id: target, owner: Some(caller) }) == 0,
        mutation_result(
            StoreReply::Affected(affected(records, Scope { id: target, owner: Some(caller) }) as u64),
        ) == Err::<(), AppError>(AppError(ErrorKind::NotFound)),
{
    let scope = Scope { id: target, owner: Some(caller) };
    assert forall|i: int| 0 <= i < records.len() implies !in_scope(#[trigger] records[i], scope) by {}
    lemma_none_in_scope(records, scope);
}

/// In a store whose identifiers are unique, an update or delete aimed at
/// one identifier is never reported as a broken invariant: it changes the
/// one record, or none.
pub proof fn law_unique_ids_keep_integrity(records: Seq<Owned>, scope: Scope)
    requires
        unique_ids(records),
    ensures
        affected(records, scope) <= 1,
        mutation_result(StoreReply::Affected(affected(records, scope) as u64)) == if affected(
            records,
            scope,
        ) == 1 {
            Ok::<(), AppError>(())
        } else {
            Err::<(), AppError>(AppError(ErrorKind::NotFound))
        },
{
    lemma_unique_ids_affect_one(records, scope);
}

/// An update or delete succeeds only if the store changed exactly one
/// record: none is reported as not found, several as a broken invariant,
/// and neither is ever taken for success.
pub proof fn law_mutation_needs_one_record(reply: StoreReply)
    ensures
        mutation_result(reply) is Ok <==> reply == StoreReply::Affected(1),
        reply == StoreReply::Affected(0) ==> mutation_result(reply) == Err::<(), AppError>(
            AppError(ErrorKind::NotFound),
        ),
        forall|rows: u64|
            rows > 1 ==> #[trigger] mutation_result(StoreReply::Affected(rows)) == Err::<(), AppError>(
                AppError(ErrorKind::IntegrityViolation(rows)),
            ),
{
}

/// Every level is either a lower one, with the cap of 3 and the contact
/// fields left out, or a higher one, with the cap of 10000 and the contact
/// fields shown: the short cap and the redaction always go together.
pub proof fn law_levels_are_lower_or_higher(level: SubscriptionLevel)
    ensures
        level.spec_hides_contact() <==> level.spec_row_limit() == 3,
        !level.spec_hides_contact() <==> level.spec_row_limit() == 10000,
        level.spec_hides_contact() <==> (level == SubscriptionLevel::Free || level
            == SubscriptionLevel::Silver),
        !level.spec_hides_contact() <==> (level == SubscriptionLevel::Gold || level
            == SubscriptionLevel::Platinium),
{
}

/// A listing never shows more candidates than the level allows, and shows
/// only candidates that answer the query. At the two lower levels it shows
/// at most 3 and no contact field of any; at the two higher levels at most
/// 10000, each with both contact fields, which are the candidate's own.
pub proof fn law_listing_follows_level(rows: Seq<CandidateView>, query: ListCandidate)
    ensures
        listing(rows, query).len() <= query.subscription_level.spec_row_limit(),
        listing(rows, query).len() <= rows.len(),
        (query.subscription_level == SubscriptionLevel::Free || query.subscription_level
            == SubscriptionLevel::Silver) ==> {
            &&& listing(rows, query).len() <= 3
            &&& forall|i: int|
                0 <= i < listing(rows, query).len() ==> {
                    &&& (#[trigger] listing(rows, query)[i]).email is None
                    &&& listing(rows, query)[i].phone_number is None
                }
        },
        (query.subscription_level == SubscriptionLevel::Gold || query.subscription_level
            == SubscriptionLevel::Platinium) ==> {
            &&& listing(rows, query).len() <= 10000
            &&& forall|i: int|
                0 <= i < listing(rows, query).len() ==> {
                    &&& (#[trigger] listing(rows, query)[i]).email is Some
                    &&& listing(rows, query)[i].phone_number is Some
                }
        },
        forall|i: int|
            0 <= i < listing(rows, query).len() ==> exists|j: int|
                0 <= j < rows.len() && answers(rows[j], query) && (#[trigger] listing(rows, query)[i])
                    == summary(rows[j], query.subscription_level),
{
    let found = rows.filter(answering(query));
    let limit = query.subscription_level.spec_row_limit() as int;
    let kept = capped(found, limit);
    rows.lemma_filter_len(answering(query));
    assert forall|i: int| 0 <= i < listing(rows, query).len() implies exists|j: int|
        0 <= j < rows.len() && answers(rows[j], query) && (#[trigger] listing(rows, query)[i])
            == summary(rows[j], query.subscription_level) by {
        assert(kept[i] == found[i]);
        rows.lemma_filter_pred(answering(query), i);
        assert(found.contains(found[i]));
        rows.lemma_filter_contains_rev(answering(query), found[i]);
        let j = choose|j: int| 0 <= j < rows.len() && rows[j] == found[i];
        assert(answers(rows[j], query));
    }
}

/// The creation of a candidate whose payload breaks a rule ends at once
/// with the broken rules: nothing is asked of the job service, of the
/// identity provider or of the store.
pub proof fn law_invalid_payload_ends_creation(dto: CreateCandidateView, email_ok: bool, phone_ok: bool)
    requires
        create_candidate_errors(dto, email_ok, phone_ok).verdict() is Err,
    ensures
        creation_start(dto, email_ok, phone_ok) == (
            CreationView::Finished,
            CreationActionView::Done(
                Err(
                    AppError(
                        ErrorKind::ValidationFailed(create_candidate_errors(dto, email_ok, phone_ok)),
                    ),
                ),
            ),
        ),
{
}

/// The store is asked to keep a new candidate only once its account is
/// open: the step before was the reply that set the password, and the
/// candidate is kept under the identifier of the account. If anything
/// fails before, nothing is on record.
pub proof fn law_insert_follows_open_account(
    job_id: u128,
    state: CreationView,
    event: CreationEventView,
)
    requires
        creation_step(job_id, state, event).1 is Insert,
    ensures
        state matches CreationView::Provisioning(ProvisioningView::AwaitingPassword { user_id, .. })
            && creation_step(job_id, state, event).1 == (CreationActionView::Insert { user_id })
            && creation_step(job_id, state, event).0 == (CreationView::Persisting { user_id }),
        event is Idp,
        event->Idp_0 is PasswordSet,
{
}

/// The creation of a candidate reports success only when the store has
/// answered the insert, and every step that ends it with a failure leaves
/// it finished.
pub proof fn law_creation_ends_once(job_id: u128, state: CreationView, event: CreationEventView)
    ensures
        creation_step(job_id, state, event).1 matches CreationActionView::Done(Ok(user_id))
            ==> state == (CreationView::Persisting { user_id }) && event is Stored,
        creation_step(job_id, state, event).1 is Done ==> creation_step(job_id, state, event).0
            is Finished,
        state is Finished ==> creation_step(job_id, state, event).1 matches CreationActionView::Done(
            Err(_),
        ),
{
}

/// A caller who is no administrator is refused the delete of a candidate,
/// and no scope is handed out for the store to act on.
pub proof fn law_delete_needs_admin(identity: Identity, user_id: u128)
    requires
        !identity.roles.contains(Role::Admin),
    ensures
        delete_plan(identity, user_id) == Err::<Scope, AppError>(
            AppError(ErrorKind::Forbidden(Role::Admin)),
        ),
{
}

/// An update that finds its record gone, whatever the reason, reports that
/// nothing was found; and the record it is aimed at is always the
/// caller's own.
pub proof fn law_update_is_self_scoped(caller: u128, job_id: u128, state: Update, event: UpdateEvent)
    ensures
        update_step(caller, job_id, Update::Updating, UpdateEvent::Stored(StoreReply::Affected(0))).1
            == UpdateAction::Done(Err(AppError(ErrorKind::NotFound))),
        update_step(caller, job_id, state, event).1 matches UpdateAction::Store(scope) ==> scope.id
            == caller,
{
}

/// A candidate that the store keeps as it was created, and hands back on a
/// lookup, comes back with every field of the payload, under the
/// identifier of its account.
pub proof fn law_created_candidate_reads_back(payload: Candidate, stored: Candidate, user_id: u128)
    requires
        stored@ == (CandidateView { id: Some(user_id), ..payload@ }),
    ensures
        fetch_result(Fetched::Found(stored)) == Ok::<Candidate, AppError>(stored),
        stored@.id == Some(user_id),
        stored@.first_name == payload@.first_name,
        stored@.last_name == payload@.last_name,
        stored@.birth_date == payload@.birth_date,
        stored@.nationality_country_id == payload@.nationality_country_id,
        stored@.description == payload@.description,
        stored@.email == payload@.email,
        stored@.phone_number == payload@.phone_number,
        stored@.address == payload@.address,
        stored@.gender == payload@.gender,
        stored@.is_available == payload@.is_available,
        stored@.available_from == payload@.available_from,
        stored@.available_to == payload@.available_to,
        stored@.place == payload@.place,
        stored@.job_id == payload@.job_id,
{
}

} // verus!
