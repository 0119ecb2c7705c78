use candidate_profiles::auth_headers::AuthHeaders;
use candidate_profiles::candidate::{
    begin_create_candidate, begin_update_candidate, create_candidate, delete_candidate,
    get_candidate, get_candidate_self, start_creation, update_candidate, Creation, CreationAction,
    CreationEvent, Update, UpdateAction, UpdateEvent,
};
use candidate_profiles::dtos::candidate::{Candidate, CreateCandidate};
use candidate_profiles::error::{AppError, Collaborator, ErrorKind, Role, UpstreamFault};
use candidate_profiles::identity_provider::{
    bearer_header, create_keycloak_user, credential, located_user, new_user, password_url,
    read_created_user, read_password_set, refresh_token, start_provisioning, token_url, users_url,
    Credential, IdpAction, IdpReply, NewUser, Provisioning,
};
use candidate_profiles::storage::{conclude_fetch, Fetched, Scope, StoreReply};
use candidate_profiles::timestamp::Timestamp;
use candidate_profiles::utils::HttpReply;
use candidate_profiles::validation::{Entity, ValidationErrors};

// 2024-01-01T00:00:00 and 2024-01-10T00:00:00, in seconds since 1970.
const JAN_1: i64 = 1_704_067_200;
const JAN_10: i64 = 1_704_844_800;
const NEW_ID: u128 = 0x67e55044_10b1_426f_9247_bb680e5fe0c8;
const LOCATION: &str =
    "http://idp.local/admin/realms/season-link/users/67e55044-10b1-426f-9247-bb680e5fe0c8";

fn at(secs: i64) -> Timestamp {
    Timestamp { secs, nanos: 0 }
}

fn candidate() -> Candidate {
    Candidate {
        id: None,
        first_name: String::from("Ada"),
        last_name: String::from("Lovelace"),
        birth_date: at(0),
        nationality_country_id: String::from("GB"),
        description: String::from("Mathematician"),
        email: String::from("ada@example.com"),
        phone_number: String::from("+14152370800"),
        address: String::from("12 St James's Square"),
        gender: 2,
        is_available: true,
        available_from: at(JAN_1),
        available_to: at(JAN_10),
        place: String::from("London"),
        job_id: 42,
    }
}

fn dto() -> CreateCandidate {
    CreateCandidate { candidate: candidate(), password: String::from("s3cret") }
}

fn caller(roles: Vec<Role>) -> AuthHeaders {
    AuthHeaders { user_id: 11, roles, request_id: 12 }
}

fn upstream(fault: UpstreamFault) -> AppError {
    AppError(ErrorKind::UpstreamFailure(fault))
}

fn unreachable_idp() -> AppError {
    upstream(UpstreamFault::Unreachable(Collaborator::IdentityProvider))
}

fn token() -> IdpReply {
    IdpReply::Token(Some(String::from("tok")))
}

fn created() -> IdpReply {
    IdpReply::UserCreated { status: 201, location: Some(String::from(LOCATION)) }
}

#[test]
fn the_identity_provider_is_asked_at_fixed_addresses() {
    assert_eq!(
        token_url("http://idp.local"),
        "http://idp.local/realms/season-link/protocol/openid-connect/token"
    );
    assert_eq!(users_url("http://idp.local"), "http://idp.local/admin/realms/season-link/users/");
    assert_eq!(
        password_url("http://idp.local", NEW_ID),
        "http://idp.local/admin/realms/season-link/users/67e55044-10b1-426f-9247-bb680e5fe0c8/reset-password"
    );
}

#[test]
fn a_token_is_presented_as_bearer() {
    assert_eq!(bearer_header("abc.def"), "Bearer abc.def");
    assert_eq!(bearer_header(""), "Bearer ");
}

#[test]
fn the_new_user_carries_the_names_of_the_candidate() {
    assert_eq!(
        new_user(&dto()),
        NewUser {
            enabled: true,
            username: String::from("Ada"),
            first_name: String::from("Ada"),
            last_name: String::from("Lovelace"),
            email_verified: true,
        }
    );
}

#[test]
fn the_password_of_the_payload_is_set_for_good() {
    assert_eq!(
        credential(&dto()),
        Credential {
            kind: String::from("password"),
            temporary: false,
            value: String::from("s3cret")
        }
    );
}

#[test]
fn a_location_names_the_user_after_its_last_slash() {
    assert_eq!(located_user(LOCATION), Some(NEW_ID));
    assert_eq!(located_user("/67e55044-10b1-426f-9247-bb680e5fe0c8"), Some(NEW_ID));
    assert_eq!(located_user("a/b/67e5504410b1426f9247bb680e5fe0c8"), Some(NEW_ID));
}

#[test]
fn a_location_without_slash_or_identifier_names_no_user() {
    assert_eq!(located_user("67e55044-10b1-426f-9247-bb680e5fe0c8"), None);
    assert_eq!(located_user(""), None);
    assert_eq!(located_user("http://idp.local/users/"), None);
    assert_eq!(located_user("http://idp.local/users/ada"), None);
    assert_eq!(located_user("67e55044-10b1-426f-9247-bb680e5fe0c8/"), None);
}

#[test]
fn a_token_reply_hands_out_its_token() {
    assert_eq!(refresh_token(token()), Ok(String::from("tok")));
    assert_eq!(refresh_token(IdpReply::Token(None)), Err(upstream(UpstreamFault::NoAccessToken)));
    assert_eq!(refresh_token(IdpReply::Unreachable), Err(unreachable_idp()));
    assert_eq!(
        refresh_token(IdpReply::PasswordSet { status: 204 }),
        Err(upstream(UpstreamFault::UnexpectedReply))
    );
}

#[test]
fn a_creation_reply_names_the_new_user() {
    assert_eq!(read_created_user(&created()), Ok(NEW_ID));
    assert_eq!(
        read_created_user(&IdpReply::UserCreated {
            status: 409,
            location: Some(String::from(LOCATION))
        }),
        Err(upstream(UpstreamFault::UserCreationRefused(409)))
    );
    assert_eq!(
        read_created_user(&IdpReply::UserCreated { status: 201, location: None }),
        Err(upstream(UpstreamFault::NoUserLocation))
    );
    assert_eq!(
        read_created_user(&IdpReply::UserCreated {
            status: 201,
            location: Some(String::from("nowhere"))
        }),
        Err(upstream(UpstreamFault::NoUserLocation))
    );
    assert_eq!(read_created_user(&IdpReply::Unreachable), Err(unreachable_idp()));
    assert_eq!(read_created_user(&token()), Err(upstream(UpstreamFault::UnexpectedReply)));
}

#[test]
fn a_password_reply_tells_whether_it_is_set() {
    assert_eq!(read_password_set(&IdpReply::PasswordSet { status: 204 }), Ok(()));
    assert_eq!(
        read_password_set(&IdpReply::PasswordSet { status: 400 }),
        Err(upstream(UpstreamFault::PasswordRefused(400)))
    );
    assert_eq!(read_password_set(&IdpReply::Unreachable), Err(unreachable_idp()));
    assert_eq!(read_password_set(&created()), Err(upstream(UpstreamFault::UnexpectedReply)));
}

#[test]
fn an_account_is_opened_in_three_calls() {
    let (state, action) = start_provisioning();
    assert_eq!((&state, &action), (&Provisioning::AwaitingToken, &IdpAction::RequestToken));
    let (state, action) = create_keycloak_user(state, token());
    assert_eq!(state, Provisioning::AwaitingUser { token: String::from("tok") });
    assert_eq!(action, IdpAction::CreateUser { authorization: String::from("Bearer tok") });
    let (state, action) = create_keycloak_user(state, created());
    assert_eq!(
        state,
        Provisioning::AwaitingPassword { token: String::from("tok"), user_id: NEW_ID }
    );
    assert_eq!(
        action,
        IdpAction::SetPassword { authorization: String::from("Bearer tok"), user_id: NEW_ID }
    );
    let (state, action) = create_keycloak_user(state, IdpReply::PasswordSet { status: 204 });
    assert_eq!(state, Provisioning::Finished);
    assert_eq!(action, IdpAction::Done(Ok(NEW_ID)));
}

#[test]
fn every_failure_ends_the_opening_of_an_account() {
    let awaiting_user = || Provisioning::AwaitingUser { token: String::from("tok") };
    let awaiting_password =
        || Provisioning::AwaitingPassword { token: String::from("tok"), user_id: NEW_ID };
    let cases = vec![
        (Provisioning::AwaitingToken, IdpReply::Unreachable, unreachable_idp()),
        (Provisioning::AwaitingToken, IdpReply::Token(None), upstream(UpstreamFault::NoAccessToken)),
        (Provisioning::AwaitingToken, created(), upstream(UpstreamFault::UnexpectedReply)),
        (awaiting_user(), IdpReply::Unreachable, unreachable_idp()),
        (
            awaiting_user(),
            IdpReply::UserCreated { status: 500, location: None },
            upstream(UpstreamFault::UserCreationRefused(500)),
        ),
        (
            awaiting_user(),
            IdpReply::UserCreated { status: 201, location: None },
            upstream(UpstreamFault::NoUserLocation),
        ),
        (awaiting_user(), token(), upstream(UpstreamFault::UnexpectedReply)),
        (awaiting_password(), IdpReply::Unreachable, unreachable_idp()),
        (
            awaiting_password(),
            IdpReply::PasswordSet { status: 403 },
            upstream(UpstreamFault::PasswordRefused(403)),
        ),
        (awaiting_password(), token(), upstream(UpstreamFault::UnexpectedReply)),
        (Provisioning::Finished, token(), upstream(UpstreamFault::UnexpectedReply)),
    ];
    for (state, reply, error) in cases {
        let (state, action) = create_keycloak_user(state, reply);
        assert_eq!(state, Provisioning::Finished);
        assert_eq!(action, IdpAction::Done(Err(error)));
    }
}

#[test]
fn a_candidate_is_created_step_by_step() {
    let dto = dto();
    let (state, action) = begin_create_candidate(&dto);
    assert_eq!(state, Creation::CheckingJob);
    assert_eq!(action, CreationAction::CheckJob { job_id: 42 });
    let (state, action) = create_candidate(&dto, state, CreationEvent::Job(HttpReply::Status(200)));
    assert_eq!(state, Creation::Provisioning(Provisioning::AwaitingToken));
    assert_eq!(action, CreationAction::RequestToken);
    let (state, action) = create_candidate(&dto, state, CreationEvent::Idp(token()));
    assert_eq!(action, CreationAction::CreateUser { authorization: String::from("Bearer tok") });
    let (state, action) = create_candidate(&dto, state, CreationEvent::Idp(created()));
    assert_eq!(
        action,
        CreationAction::SetPassword { authorization: String::from("Bearer tok"), user_id: NEW_ID }
    );
    let (state, action) =
        create_candidate(&dto, state, CreationEvent::Idp(IdpReply::PasswordSet { status: 204 }));
    assert_eq!(state, Creation::Persisting { user_id: NEW_ID });
    assert_eq!(action, CreationAction::Insert { user_id: NEW_ID });
    let (state, action) =
        create_candidate(&dto, state, CreationEvent::Stored(StoreReply::Affected(1)));
    assert_eq!(state, Creation::Finished);
    assert_eq!(action, CreationAction::Done(Ok(NEW_ID)));
}

#[test]
fn a_candidate_available_from_january_10_to_january_1_is_rejected_before_any_call() {
    let mut dto = dto();
    dto.candidate.available_from = at(JAN_10);
    dto.candidate.available_to = at(JAN_1);
    let (state, action) = begin_create_candidate(&dto);
    assert_eq!(state, Creation::Finished);
    assert_eq!(
        action,
        CreationAction::Done(Err(AppError(ErrorKind::ValidationFailed(ValidationErrors {
            schema: Some(Entity::Candidate),
            ..ValidationErrors::new()
        }))))
    );
}

#[test]
fn a_creation_starts_from_the_outcome_of_the_validation() {
    let errors = ValidationErrors { password: true, ..ValidationErrors::new() };
    let (state, action) = start_creation(&dto(), Err(errors));
    assert_eq!(state, Creation::Finished);
    assert_eq!(action, CreationAction::Done(Err(AppError(ErrorKind::ValidationFailed(errors)))));
    let (state, action) = start_creation(&dto(), Ok(()));
    assert_eq!(state, Creation::CheckingJob);
    assert_eq!(action, CreationAction::CheckJob { job_id: 42 });
}

#[test]
fn an_unknown_job_ends_the_creation() {
    let dto = dto();
    let (state, action) =
        create_candidate(&dto, Creation::CheckingJob, CreationEvent::Job(HttpReply::Status(404)));
    assert_eq!(state, Creation::Finished);
    assert_eq!(action, CreationAction::Done(Err(upstream(UpstreamFault::InvalidJob(42)))));
    let (_, action) =
        create_candidate(&dto, Creation::CheckingJob, CreationEvent::Job(HttpReply::Unreachable));
    assert_eq!(
        action,
        CreationAction::Done(Err(upstream(UpstreamFault::Unreachable(Collaborator::JobService))))
    );
}

#[test]
fn a_failed_account_leaves_nothing_on_record() {
    let dto = dto();
    let state = Creation::Provisioning(Provisioning::AwaitingUser { token: String::from("tok") });
    let (state, action) = create_candidate(
        &dto,
        state,
        CreationEvent::Idp(IdpReply::UserCreated { status: 409, location: None }),
    );
    assert_eq!(state, Creation::Finished);
    assert_eq!(action, CreationAction::Done(Err(upstream(UpstreamFault::UserCreationRefused(409)))));
}

#[test]
fn a_failed_insert_ends_the_creation() {
    let (state, action) = create_candidate(
        &dto(),
        Creation::Persisting { user_id: NEW_ID },
        CreationEvent::Stored(StoreReply::Failed),
    );
    assert_eq!(state, Creation::Finished);
    assert_eq!(action, CreationAction::Done(Err(AppError(ErrorKind::StorageFailure))));
}

#[test]
fn an_event_that_answers_nothing_asked_ends_the_creation() {
    let unexpected = CreationAction::Done(Err(upstream(UpstreamFault::UnexpectedReply)));
    let (_, action) = create_candidate(
        &dto(),
        Creation::CheckingJob,
        CreationEvent::Stored(StoreReply::Affected(1)),
    );
    assert_eq!(action, unexpected);
    let (_, action) = create_candidate(
        &dto(),
        Creation::Persisting { user_id: NEW_ID },
        CreationEvent::Job(HttpReply::Status(200)),
    );
    assert_eq!(action, unexpected);
    let (_, action) = create_candidate(&dto(), Creation::Finished, CreationEvent::Idp(token()));
    assert_eq!(action, unexpected);
}

#[test]
fn a_created_candidate_reads_back_with_its_fields() {
    let stored = candidate().with_id(NEW_ID);
    assert_eq!(stored, Candidate { id: Some(NEW_ID), ..candidate() });
    let found = conclude_fetch(Fetched::Found(stored)).unwrap();
    assert_eq!(found, Candidate { id: Some(NEW_ID), ..candidate() });
}

#[test]
fn a_candidate_is_updated_under_the_identifier_of_the_caller() {
    let mut payload = candidate();
    payload.id = Some(999);
    let me = caller(vec![Role::Candidate]);
    let (state, action) = begin_update_candidate(&payload);
    assert_eq!((state, action), (Update::CheckingJob, UpdateAction::CheckJob { job_id: 42 }));
    let (state, action) =
        update_candidate(&me, &payload, state, UpdateEvent::Job(HttpReply::Status(200)));
    assert_eq!(
        (state, action),
        (Update::Updating, UpdateAction::Store(Scope { id: 11, owner: None }))
    );
    let (state, action) =
        update_candidate(&me, &payload, state, UpdateEvent::Stored(StoreReply::Affected(1)));
    assert_eq!((state, action), (Update::Finished, UpdateAction::Done(Ok(()))));
}

#[test]
fn an_update_of_a_record_deleted_meanwhile_is_not_found() {
    let me = caller(vec![Role::Candidate]);
    let (state, action) = update_candidate(
        &me,
        &candidate(),
        Update::Updating,
        UpdateEvent::Stored(StoreReply::Affected(0)),
    );
    assert_eq!(state, Update::Finished);
    assert_eq!(action, UpdateAction::Done(Err(AppError(ErrorKind::NotFound))));
}

#[test]
fn an_update_fails_with_the_job_service_and_the_store() {
    let me = caller(vec![]);
    let (_, action) = update_candidate(
        &me,
        &candidate(),
        Update::CheckingJob,
        UpdateEvent::Job(HttpReply::Status(404)),
    );
    assert_eq!(action, UpdateAction::Done(Err(upstream(UpstreamFault::InvalidJob(42)))));
    let (_, action) =
        update_candidate(&me, &candidate(), Update::Updating, UpdateEvent::Stored(StoreReply::Failed));
    assert_eq!(action, UpdateAction::Done(Err(AppError(ErrorKind::StorageFailure))));
    let (_, action) = update_candidate(
        &me,
        &candidate(),
        Update::Updating,
        UpdateEvent::Stored(StoreReply::Affected(2)),
    );
    assert_eq!(action, UpdateAction::Done(Err(AppError(ErrorKind::IntegrityViolation(2)))));
    let (_, action) = update_candidate(
        &me,
        &candidate(),
        Update::Finished,
        UpdateEvent::Stored(StoreReply::Affected(1)),
    );
    assert_eq!(action, UpdateAction::Done(Err(upstream(UpstreamFault::UnexpectedReply))));
}

#[test]
fn an_invalid_update_never_reaches_the_job_service() {
    let mut payload = candidate();
    payload.email = String::from("nope");
    let (state, action) = begin_update_candidate(&payload);
    assert_eq!(state, Update::Finished);
    assert_eq!(
        action,
        UpdateAction::Done(Err(AppError(ErrorKind::ValidationFailed(ValidationErrors {
            email: true,
            ..ValidationErrors::new()
        }))))
    );
}

#[test]
fn a_delete_by_a_caller_without_the_admin_role_is_forbidden() {
    let refused = Err(AppError(ErrorKind::Forbidden(Role::Admin)));
    assert_eq!(delete_candidate(&caller(vec![Role::Candidate]), 5), refused);
    assert_eq!(delete_candidate(&caller(vec![]), 5), refused);
    assert_eq!(delete_candidate(&caller(vec![Role::Unknown]), 5), refused);
}

#[test]
fn an_administrator_deletes_any_candidate() {
    assert_eq!(
        delete_candidate(&caller(vec![Role::Admin]), 5),
        Ok(Scope { id: 5, owner: None })
    );
}

#[test]
fn a_candidate_is_looked_up_by_identifier_or_as_the_caller() {
    let me = caller(vec![Role::Candidate]);
    assert_eq!(get_candidate(&me, 5), Scope { id: 5, owner: None });
    assert_eq!(get_candidate_self(&me), Scope { id: 11, owner: None });
}
