use candidate_profiles::auth_headers::AuthHeaders;
use candidate_profiles::cv::{get_cv, get_cv_filename_from_user, get_cv_self, post_cv};
use candidate_profiles::dtos::experience::Experience;
use candidate_profiles::dtos::reference::Reference;
use candidate_profiles::error::{AppError, Collaborator, ErrorKind, Header, Role, UpstreamFault};
use candidate_profiles::experience::{
    create_experience, delete_experience, get_experience, get_experiences, update_experience,
};
use candidate_profiles::reference::{
    create_reference, delete_reference, get_reference, get_references, update_reference,
};
use candidate_profiles::storage::{
    conclude_fetch, conclude_insert, conclude_list, conclude_mutation, Fetched, OwnedBy, Scope,
    StoreReply,
};
use candidate_profiles::timestamp::Timestamp;
use candidate_profiles::utils::{
    check_job_valid, check_query_effective, handler_404, is_job_uuid_valid, is_success, job_url,
    HttpReply,
};
use candidate_profiles::validation::{Entity, ValidationErrors};

const CALLER: u128 = 0x550e8400_e29b_41d4_a716_446655440000;

fn caller() -> AuthHeaders {
    AuthHeaders { user_id: CALLER, roles: vec![Role::Candidate], request_id: 3 }
}

fn reference() -> Reference {
    Reference {
        id: 5,
        first_name: String::from("Charles"),
        last_name: String::from("Babbage"),
        email: String::from("charles@example.com"),
        phone_number: String::from("+33642926829"),
        company_name: String::from("Analytical Engines"),
    }
}

fn experience() -> Experience {
    Experience {
        id: 8,
        candidate_id: 77,
        company_name: String::from("Analytical Engines"),
        job_id: 42,
        start_time: Timestamp { secs: 1, nanos: 0 },
        end_time: Timestamp { secs: 2, nanos: 0 },
        description: String::from("Programs"),
    }
}

#[test]
fn one_affected_record_is_success() {
    assert_eq!(check_query_effective(1), Ok(()));
}

#[test]
fn no_affected_record_is_not_found() {
    assert_eq!(check_query_effective(0), Err(AppError(ErrorKind::NotFound)));
}

#[test]
fn several_affected_records_break_integrity() {
    assert_eq!(check_query_effective(2), Err(AppError(ErrorKind::IntegrityViolation(2))));
    assert_eq!(
        check_query_effective(u64::MAX),
        Err(AppError(ErrorKind::IntegrityViolation(u64::MAX)))
    );
}

#[test]
fn a_mutation_is_read_from_the_answer_of_the_store() {
    assert_eq!(conclude_mutation(StoreReply::Affected(1)), Ok(()));
    assert_eq!(conclude_mutation(StoreReply::Affected(0)), Err(AppError(ErrorKind::NotFound)));
    assert_eq!(
        conclude_mutation(StoreReply::Affected(3)),
        Err(AppError(ErrorKind::IntegrityViolation(3)))
    );
    assert_eq!(conclude_mutation(StoreReply::Failed), Err(AppError(ErrorKind::StorageFailure)));
}

#[test]
fn an_insert_fails_only_with_the_store() {
    assert_eq!(conclude_insert(StoreReply::Affected(1)), Ok(()));
    assert_eq!(conclude_insert(StoreReply::Affected(0)), Ok(()));
    assert_eq!(conclude_insert(StoreReply::Failed), Err(AppError(ErrorKind::StorageFailure)));
}

#[test]
fn a_lookup_is_read_from_the_answer_of_the_store() {
    assert_eq!(conclude_fetch(Fetched::Found(reference())), Ok(reference()));
    assert_eq!(conclude_fetch(Fetched::<Reference>::Missing), Err(AppError(ErrorKind::NotFound)));
    assert_eq!(
        conclude_fetch(Fetched::<Reference>::Failed),
        Err(AppError(ErrorKind::StorageFailure))
    );
    assert_eq!(conclude_list(Some(vec![1u8, 2, 3])), Ok(vec![1u8, 2, 3]));
    assert_eq!(conclude_list(None::<Vec<u8>>), Err(AppError(ErrorKind::StorageFailure)));
}

#[test]
fn statuses_from_200_to_299_report_success() {
    assert!(is_success(200));
    assert!(is_success(204));
    assert!(is_success(299));
    assert!(!is_success(199));
    assert!(!is_success(300));
    assert!(!is_success(404));
    assert!(!is_success(0));
}

#[test]
fn the_job_service_is_asked_by_identifier() {
    assert_eq!(
        job_url("http://jobs.local", CALLER),
        "http://jobs.local/jobs/550e8400-e29b-41d4-a716-446655440000"
    );
    assert_eq!(job_url("", 0), "/jobs/00000000-0000-0000-0000-000000000000");
    assert_eq!(job_url("x", u128::MAX), "x/jobs/ffffffff-ffff-ffff-ffff-ffffffffffff");
}

#[test]
fn the_reply_of_the_job_service_tells_whether_a_job_is_known() {
    assert_eq!(is_job_uuid_valid(HttpReply::Status(200)), Ok(true));
    assert_eq!(is_job_uuid_valid(HttpReply::Status(404)), Ok(false));
    assert_eq!(
        is_job_uuid_valid(HttpReply::Unreachable),
        Err(AppError(ErrorKind::UpstreamFailure(UpstreamFault::Unreachable(
            Collaborator::JobService
        ))))
    );
}

#[test]
fn an_unknown_job_stops_the_request() {
    assert_eq!(check_job_valid(9, HttpReply::Status(204)), Ok(()));
    assert_eq!(
        check_job_valid(9, HttpReply::Status(500)),
        Err(AppError(ErrorKind::UpstreamFailure(UpstreamFault::InvalidJob(9))))
    );
    assert_eq!(
        check_job_valid(9, HttpReply::Unreachable),
        Err(AppError(ErrorKind::UpstreamFailure(UpstreamFault::Unreachable(
            Collaborator::JobService
        ))))
    );
}

#[test]
fn an_unserved_route_is_answered_with_404() {
    assert_eq!(handler_404(), (404, "The requested resource was not found"));
}

#[test]
fn failures_of_the_request_are_4xx_and_of_the_service_5xx() {
    let none = ValidationErrors::new();
    assert_eq!(AppError(ErrorKind::MissingHeader(Header::UserId)).status(), 400);
    assert_eq!(AppError(ErrorKind::MalformedHeader(Header::RequestId)).status(), 400);
    assert_eq!(AppError(ErrorKind::Forbidden(Role::Admin)).status(), 403);
    assert_eq!(AppError(ErrorKind::ValidationFailed(none)).status(), 400);
    assert_eq!(AppError(ErrorKind::NotFound).status(), 404);
    assert_eq!(AppError(ErrorKind::IntegrityViolation(2)).status(), 500);
    assert_eq!(AppError(ErrorKind::UpstreamFailure(UpstreamFault::NoAccessToken)).status(), 502);
    assert_eq!(AppError(ErrorKind::StorageFailure).status(), 500);
}

#[test]
fn a_cv_is_kept_under_the_identifier_of_its_candidate() {
    assert_eq!(get_cv_filename_from_user(CALLER), "550e8400-e29b-41d4-a716-446655440000_cv");
    assert_eq!(get_cv_filename_from_user(0xabc), "00000000-0000-0000-0000-000000000abc_cv");
    assert_eq!(get_cv(0x10), "00000000-0000-0000-0000-000000000010_cv");
    assert_eq!(get_cv_self(&caller()), "550e8400-e29b-41d4-a716-446655440000_cv");
}

#[test]
fn an_upload_keeps_the_file_under_the_key_of_the_caller() {
    assert_eq!(
        post_cv(&caller(), Some(vec![1, 2, 3])),
        Ok((String::from("550e8400-e29b-41d4-a716-446655440000_cv"), vec![1, 2, 3]))
    );
    assert_eq!(
        post_cv(&caller(), Some(vec![])),
        Ok((String::from("550e8400-e29b-41d4-a716-446655440000_cv"), vec![]))
    );
}

#[test]
fn an_upload_without_a_file_is_refused() {
    assert_eq!(
        post_cv(&caller(), None),
        Err(AppError(ErrorKind::ValidationFailed(ValidationErrors {
            file: true,
            ..ValidationErrors::new()
        })))
    );
}

#[test]
fn references_are_changed_and_deleted_by_their_owner_only() {
    assert_eq!(delete_reference(&caller(), 5), Scope { id: 5, owner: Some(CALLER) });
    assert_eq!(update_reference(&caller(), 5, &reference()), Ok(Scope { id: 5, owner: Some(CALLER) }));
}

#[test]
fn references_are_read_by_anyone() {
    assert_eq!(get_reference(5), Scope { id: 5, owner: None });
    assert_eq!(get_references(12), OwnedBy { owner: 12 });
}

#[test]
fn a_reference_is_created_for_the_caller() {
    assert_eq!(create_reference(&caller(), &reference()), Ok(OwnedBy { owner: CALLER }));
}

#[test]
fn an_invalid_reference_never_reaches_the_store() {
    let mut broken = reference();
    broken.company_name = String::new();
    let refused = Err(AppError(ErrorKind::ValidationFailed(ValidationErrors {
        company_name: true,
        ..ValidationErrors::new()
    })));
    assert_eq!(create_reference(&caller(), &broken), refused);
    assert_eq!(
        update_reference(&caller(), 5, &broken),
        Err(AppError(ErrorKind::ValidationFailed(ValidationErrors {
            company_name: true,
            ..ValidationErrors::new()
        })))
    );
}

#[test]
fn experiences_are_scoped_to_the_caller() {
    assert_eq!(get_experiences(&caller()), OwnedBy { owner: CALLER });
    assert_eq!(get_experience(&caller(), 8), Scope { id: 8, owner: Some(CALLER) });
    assert_eq!(delete_experience(&caller(), 8), Scope { id: 8, owner: Some(CALLER) });
    assert_eq!(
        update_experience(&caller(), 8, &experience()),
        Ok(Scope { id: 8, owner: Some(CALLER) })
    );
}

#[test]
fn an_experience_is_created_for_the_caller() {
    let stored = create_experience(&caller(), experience()).unwrap();
    assert_eq!(stored, Experience { candidate_id: CALLER, ..experience() });
}

#[test]
fn an_invalid_experience_never_reaches_the_store() {
    let mut broken = experience();
    broken.end_time = Timestamp { secs: 0, nanos: 0 };
    let errors = ValidationErrors { schema: Some(Entity::Experience), ..ValidationErrors::new() };
    assert_eq!(
        create_experience(&caller(), broken.clone()),
        Err(AppError(ErrorKind::ValidationFailed(errors)))
    );
    assert_eq!(
        update_experience(&caller(), 8, &broken),
        Err(AppError(ErrorKind::ValidationFailed(errors)))
    );
}

#[test]
fn a_foreign_record_is_reported_as_not_found() {
    // The statement is aimed at the caller's records only, so the store
    // changes none, and the handler reports that.
    let scope = delete_reference(&caller(), 5);
    assert_eq!(scope.owner, Some(CALLER));
    assert_eq!(conclude_mutation(StoreReply::Affected(0)), Err(AppError(ErrorKind::NotFound)));
}
