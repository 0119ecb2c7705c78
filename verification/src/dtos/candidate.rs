//! Candidates: the full profile, the profile with a password as it arrives
//! on creation, and the summary shown in listings.

use vstd::prelude::*;
use crate::timestamp::Timestamp;
use crate::validation::{
    check_email, check_length, check_phone, is_email, is_phone, length_within, Entity,
    ValidationErrors,
};

verus! {

/// The profile of a candidate.
#[derive(Clone, Debug, PartialEq, Eq)]
pub struct Candidate {
    pub id: Option<u128>,
    pub first_name: String,
    pub last_name: String,
    pub birth_date: Timestamp,
    pub nationality_country_id: String,
    pub description: String,
    pub email: String,
    pub phone_number: String,
    pub address: String,
    pub gender: i16,
    pub is_available: bool,
    pub available_from: Timestamp,
    pub available_to: Timestamp,
    pub place: String,
    pub job_id: u128,
}

/// What a `Candidate` holds.
pub struct CandidateView {
    pub id: Option<u128>,
    pub first_name: Seq<char>,
    pub last_name: Seq<char>,
    pub birth_date: Timestamp,
    pub nationality_country_id: Seq<char>,
    pub description: Seq<char>,
    pub email: Seq<char>,
    pub phone_number: Seq<char>,
    pub address: Seq<char>,
    pub gender: i16,
    pub is_available: bool,
    pub available_from: Timestamp,
    pub available_to: Timestamp,
    pub place: Seq<char>,
    pub job_id: u128,
}

impl View for Candidate {
    type V = CandidateView;

    open spec fn view(&self) -> CandidateView {
        CandidateView {
            id: self.id,
            first_name: self.first_name@,
            last_name: self.last_name@,
            birth_date: self.birth_date,
            nationality_country_id: self.nationality_country_id@,
            description: self.description@,
            email: self.email@,
            phone_number: self.phone_number@,
            address: self.address@,
            gender: self.gender,
            is_available: self.is_available,
            available_from: self.available_from,
            available_to: self.available_to,
            place: self.place@,
            job_id: self.job_id,
        }
    }
}

/// The rules that a candidate breaks, given whether its e-mail address and
/// its phone number are well formed. Names have 1 to 255 characters, the
/// description at most 255, and the candidate must become available
/// strictly before it stops being so. That last rule is judged whatever the
/// fields are like.
pub open spec fn candidate_errors(
    candidate: CandidateView,
    email_ok: bool,
    phone_ok: bool,
) -> ValidationErrors {
    ValidationErrors {
        first_name: !length_within(candidate.first_name, 1, 255),
        last_name: !length_within(candidate.last_name, 1, 255),
        description: !length_within(candidate.description, 0, 255),
        email: !email_ok,
        phone_number: !phone_ok,
        company_name: false,
        password: false,
        file: false,
        schema: if candidate.available_from.before(candidate.available_to) {
            None
        } else {
            Some(Entity::Candidate)
        },
    }
}

impl Candidate {
    /// The rules that the candidate breaks, given whether its e-mail
    /// address and its phone number are well formed.
    pub fn check(&self, email_ok: bool, phone_ok: bool) -> (errors: ValidationErrors)
        ensures
            errors == candidate_errors(self@, email_ok, phone_ok),
    {
        ValidationErrors {
            first_name: !check_length(self.first_name.as_str(), 1, 255),
            last_name: !check_length(self.last_name.as_str(), 1, 255),
            description: !check_length(self.description.as_str(), 0, 255),
            email: !email_ok,
            phone_number: !phone_ok,
            company_name: false,
            password: false,
            file: false,
            schema: if self.available_from.is_before(&self.available_to) {
                None
            } else {
                Some(Entity::Candidate)
            },
        }
    }

    /// Validates the candidate: valid, or every rule that it breaks.
    pub fn validate(&self) -> (outcome: Result<(), ValidationErrors>)
        ensures
            outcome == candidate_errors(
                self@,
                is_email(self@.email),
                is_phone(self@.phone_number),
            ).verdict(),
    {
        let email_ok = check_email(self.email.as_str());
        let phone_ok = check_phone(self.phone_number.as_str());
        self.check(email_ok, phone_ok).into_result()
    }
}

/// A candidate as it arrives to be created: the profile and the password of
/// the account to open.
#[derive(Clone, Debug, PartialEq, Eq)]
pub struct CreateCandidate {
    pub candidate: Candidate,
    pub password: String,
}

/// What a `CreateCandidate` holds.
pub struct CreateCandidateView {
    pub candidate: CandidateView,
    pub password: Seq<char>,
}

impl View for CreateCandidate {
    type V = CreateCandidateView;

    open spec fn view(&self) -> CreateCandidateView {
        CreateCandidateView { candidate: self.candidate@, password: self.password@ }
    }
}

/// The rules that a candidate to create breaks: those of the profile, and
/// the password has at least 4 characters.
pub open spec fn create_candidate_errors(
    dto: CreateCandidateView,
    email_ok: bool,
    phone_ok: bool,
) -> ValidationErrors {
    ValidationErrors {
        password: dto.password.len() < 4,
        ..candidate_errors(dto.candidate, email_ok, phone_ok)
    }
}

impl CreateCandidate {
    /// The rules that the payload breaks, given whether its e-mail address
    /// and its phone number are well formed.
    pub fn check(&self, email_ok: bool, phone_ok: bool) -> (errors: ValidationErrors)
        ensures
            errors == create_candidate_errors(self@, email_ok, phone_ok),
    {
        let profile = self.candidate.check(email_ok, phone_ok);
        ValidationErrors { password: self.password.as_str().unicode_len() < 4, ..profile }
    }

    /// Validates the payload: valid, or every rule that it breaks.
    pub fn validate(&self) -> (outcome: Result<(), ValidationErrors>)
        ensures
            outcome == create_candidate_errors(
                self@,
                is_email(self@.candidate.email),
                is_phone(self@.candidate.phone_number),
            ).verdict(),
    {
        let email_ok = check_email(self.candidate.email.as_str());
        let phone_ok = check_phone(self.candidate.phone_number.as_str());
        self.check(email_ok, phone_ok).into_result()
    }
}

/// A candidate as a listing shows it. The contact fields are left out for
/// callers that may not see them.
#[derive(Clone, Debug, PartialEq, Eq)]
pub struct SimpleCandidate {
    pub id: u128,
    pub first_name: String,
    pub last_name: String,
    pub email: Option<String>,
    pub phone_number: Option<String>,
    pub available_from: Timestamp,
    pub available_to: Timestamp,
}

/// What a `SimpleCandidate` holds.
pub struct SimpleCandidateView {
    pub id: u128,
    pub first_name: Seq<char>,
    pub last_name: Seq<char>,
    pub email: Option<Seq<char>>,
    pub phone_number: Option<Seq<char>>,
    pub available_from: Timestamp,
    pub available_to: Timestamp,
}

impl View for SimpleCandidate {
    type V = SimpleCandidateView;

    open spec fn view(&self) -> SimpleCandidateView {
        SimpleCandidateView {
            id: self.id,
            first_name: self.first_name@,
            last_name: self.last_name@,
            email: match self.email {
                Some(text) => Some(text@),
                None => None,
            },
            phone_number: match self.phone_number {
                Some(text) => Some(text@),
                None => None,
            },
            available_from: self.available_from,
            available_to: self.available_to,
        }
    }
}

} // verus!
