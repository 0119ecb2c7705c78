//! References: the people who vouch for a candidate.

use vstd::prelude::*;
use crate::validation::{
    check_email, check_length, check_phone, is_email, is_phone, length_within, ValidationErrors,
};

verus! {

/// One person who vouches for a candidate. Whose reference it is does not
/// show in the payload: it is the caller's.
#[derive(Clone, Debug, PartialEq, Eq)]
pub struct Reference {
    pub id: u128,
    pub first_name: String,
    pub last_name: String,
    pub email: String,
    pub phone_number: String,
    pub company_name: String,
}

/// What a `Reference` holds.
pub struct ReferenceView {
    pub id: u128,
    pub first_name: Seq<char>,
    pub last_name: Seq<char>,
    pub email: Seq<char>,
    pub phone_number: Seq<char>,
    pub company_name: Seq<char>,
}

impl View for Reference {
    type V = ReferenceView;

    open spec fn view(&self) -> ReferenceView {
        ReferenceView {
            id: self.id,
            first_name: self.first_name@,
            last_name: self.last_name@,
            email: self.email@,
            phone_number: self.phone_number@,
            company_name: self.company_name@,
        }
    }
}

/// The rules that a reference breaks, given whether its e-mail address and
/// its phone number are well formed. The names and the company name have 1
/// to 255 characters.
pub open spec fn reference_errors(
    reference: ReferenceView,
    email_ok: bool,
    phone_ok: bool,
) -> ValidationErrors {
    ValidationErrors {
        first_name: !length_within(reference.first_name, 1, 255),
        last_name: !length_within(reference.last_name, 1, 255),
        email: !email_ok,
        phone_number: !phone_ok,
        company_name: !length_within(reference.company_name, 1, 255),
        ..ValidationErrors::none()
    }
}

impl Reference {
    /// The rules that the reference breaks, given whether its e-mail
    /// address and its phone number are well formed.
    pub fn check(&self, email_ok: bool, phone_ok: bool) -> (errors: ValidationErrors)
        ensures
            errors == reference_errors(self@, email_ok, phone_ok),
    {
        ValidationErrors {
            first_name: !check_length(self.first_name.as_str(), 1, 255),
            last_name: !check_length(self.last_name.as_str(), 1, 255),
            email: !email_ok,
            phone_number: !phone_ok,
            company_name: !check_length(self.company_name.as_str(), 1, 255),
            ..ValidationErrors::new()
        }
    }

    /// Validates the reference: valid, or every rule that it breaks.
    pub fn validate(&self) -> (outcome: Result<(), ValidationErrors>)
        ensures
            outcome == reference_errors(
                self@,
                is_email(self@.email),
                is_phone(self@.phone_number),
            ).verdict(),
    {
        let email_ok = check_email(self.email.as_str());
        let phone_ok = check_phone(self.phone_number.as_str());
        self.check(email_ok, phone_ok).into_result()
    }
}

} // verus!
