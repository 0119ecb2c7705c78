use candidate_profiles::candidate::get_candidates;
use candidate_profiles::dtos::candidate::{Candidate, SimpleCandidate};
use candidate_profiles::dtos::list_candidate::{ListCandidate, SubscriptionLevel};
use candidate_profiles::error::{AppError, ErrorKind};
use candidate_profiles::listing::list_candidates;
use candidate_profiles::timestamp::Timestamp;
use candidate_profiles::validation::{Entity, ValidationErrors};

fn at(secs: i64) -> Timestamp {
    Timestamp { secs, nanos: 0 }
}

fn row(id: u128) -> Candidate {
    Candidate {
        id: Some(id),
        first_name: format!("first{}", id),
        last_name: format!("last{}", id),
        birth_date: at(0),
        nationality_country_id: String::from("FR"),
        description: String::new(),
        email: format!("c{}@example.com", id),
        phone_number: format!("+3364292{:04}", id),
        address: String::new(),
        gender: 0,
        is_available: true,
        available_from: at(100),
        available_to: at(200),
        place: String::new(),
        job_id: 42,
    }
}

fn rows(count: u128) -> Vec<Candidate> {
    (1..=count).map(row).collect()
}

fn query(level: SubscriptionLevel) -> ListCandidate {
    ListCandidate { job_id: 42, start_date: at(120), end_date: at(180), subscription_level: level }
}

fn shown(id: u128, contact: bool) -> SimpleCandidate {
    SimpleCandidate {
        id,
        first_name: format!("first{}", id),
        last_name: format!("last{}", id),
        email: if contact { Some(format!("c{}@example.com", id)) } else { None },
        phone_number: if contact { Some(format!("+3364292{:04}", id)) } else { None },
        available_from: at(100),
        available_to: at(200),
    }
}

#[test]
fn levels_cap_the_listing() {
    assert_eq!(SubscriptionLevel::Free.row_limit(), 3);
    assert_eq!(SubscriptionLevel::Silver.row_limit(), 3);
    assert_eq!(SubscriptionLevel::Gold.row_limit(), 10000);
    assert_eq!(SubscriptionLevel::Platinium.row_limit(), 10000);
}

#[test]
fn the_two_lower_levels_hide_contacts() {
    assert!(SubscriptionLevel::Free.hides_contact());
    assert!(SubscriptionLevel::Silver.hides_contact());
    assert!(!SubscriptionLevel::Gold.hides_contact());
    assert!(!SubscriptionLevel::Platinium.hides_contact());
}

#[test]
fn the_lowest_level_shows_three_candidates_without_contacts() {
    let listing = list_candidates(&rows(5), &query(SubscriptionLevel::Free));
    assert_eq!(listing, vec![shown(1, false), shown(2, false), shown(3, false)]);
}

#[test]
fn the_second_level_shows_three_candidates_without_contacts() {
    let listing = list_candidates(&rows(5), &query(SubscriptionLevel::Silver));
    assert_eq!(listing, vec![shown(1, false), shown(2, false), shown(3, false)]);
}

#[test]
fn one_answering_candidate_is_shown_without_contacts_at_the_second_level() {
    let listing = get_candidates(&query(SubscriptionLevel::Silver), &rows(1)).unwrap();
    assert_eq!(listing.len(), 1);
    assert_eq!(listing[0].email, None);
    assert_eq!(listing[0].phone_number, None);
}

#[test]
fn the_third_level_shows_contacts() {
    let listing = get_candidates(&query(SubscriptionLevel::Gold), &rows(1)).unwrap();
    assert_eq!(listing, vec![shown(1, true)]);
}

#[test]
fn the_highest_level_shows_ten_thousand_candidates_with_contacts() {
    let listing = list_candidates(&rows(10_002), &query(SubscriptionLevel::Platinium));
    assert_eq!(listing.len(), 10_000);
    assert_eq!(listing[0], shown(1, true));
    assert_eq!(listing[9_999], shown(10_000, true));
    let listing = list_candidates(&rows(4), &query(SubscriptionLevel::Gold));
    assert_eq!(listing, vec![shown(1, true), shown(2, true), shown(3, true), shown(4, true)]);
}

#[test]
fn candidates_that_do_not_answer_are_left_out() {
    let mut all = rows(6);
    all[0].is_available = false;
    all[1].job_id = 43;
    all[2].available_from = at(121);
    all[3].available_to = at(179);
    all[4].id = None;
    let listing = list_candidates(&all, &query(SubscriptionLevel::Gold));
    assert_eq!(listing, vec![shown(6, true)]);
}

#[test]
fn candidates_left_out_do_not_count_towards_the_cap() {
    let mut all = rows(6);
    all[0].is_available = false;
    all[2].job_id = 7;
    let listing = list_candidates(&all, &query(SubscriptionLevel::Free));
    assert_eq!(listing, vec![shown(2, false), shown(4, false), shown(5, false)]);
}

#[test]
fn the_window_may_touch_the_ends_of_the_availability() {
    let exact = ListCandidate {
        job_id: 42,
        start_date: at(100),
        end_date: at(200),
        subscription_level: SubscriptionLevel::Gold,
    };
    assert_eq!(list_candidates(&rows(1), &exact), vec![shown(1, true)]);
    let early = ListCandidate { start_date: at(99), ..exact };
    assert_eq!(list_candidates(&rows(1), &early), vec![]);
    let late = ListCandidate { end_date: Timestamp { secs: 200, nanos: 1 }, ..exact };
    assert_eq!(list_candidates(&rows(1), &late), vec![]);
}

#[test]
fn no_candidate_gives_an_empty_listing() {
    assert_eq!(list_candidates(&vec![], &query(SubscriptionLevel::Platinium)), vec![]);
}

#[test]
fn a_candidate_without_identifier_has_no_summary() {
    let mut c = row(9);
    assert_eq!(c.summarize(SubscriptionLevel::Free), Some(shown(9, false)));
    assert_eq!(c.summarize(SubscriptionLevel::Silver), Some(shown(9, false)));
    assert_eq!(c.summarize(SubscriptionLevel::Gold), Some(shown(9, true)));
    assert_eq!(c.summarize(SubscriptionLevel::Platinium), Some(shown(9, true)));
    c.id = None;
    assert_eq!(c.summarize(SubscriptionLevel::Gold), None);
}

#[test]
fn a_listing_needs_a_valid_query() {
    let backwards = ListCandidate {
        job_id: 42,
        start_date: at(180),
        end_date: at(120),
        subscription_level: SubscriptionLevel::Gold,
    };
    assert_eq!(
        get_candidates(&backwards, &rows(2)),
        Err(AppError(ErrorKind::ValidationFailed(ValidationErrors {
            schema: Some(Entity::ListCandidate),
            ..ValidationErrors::new()
        })))
    );
    assert_eq!(
        get_candidates(&query(SubscriptionLevel::Free), &rows(2)),
        Ok(vec![shown(1, false), shown(2, false)])
    );
}
