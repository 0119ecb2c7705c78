//! Experiences: the positions a candidate has held.

use vstd::prelude::*;
use crate::timestamp::Timestamp;
use crate::validation::{check_length, length_within, Entity, ValidationErrors};

verus! {

/// One position that a candidate has held.
#[derive(Clone, Debug, PartialEq, Eq)]
pub struct Experience {
    pub id: u128,
    pub candidate_id: u128,
    pub company_name: String,
    pub job_id: u128,
    pub start_time: Timestamp,
    pub end_time: Timestamp,
    pub description: String,
}

/// What an `Experience` holds.
pub struct ExperienceView {
    pub id: u128,
    pub candidate_id: u128,
    pub company_name: Seq<char>,
    pub job_id: u128,
    pub start_time: Timestamp,
    pub end_time: Timestamp,
    pub description: Seq<char>,
}

impl View for Experience {
    type V = ExperienceView;

    open spec fn view(&self) -> ExperienceView {
        ExperienceView {
            id: self.id,
            candidate_id: self.candidate_id,
            company_name: self.company_name@,
            job_id: self.job_id,
            start_time: self.start_time,
            end_time: self.end_time,
            description: self.description@,
        }
    }
}

/// The rules that an experience breaks. The company name and the
/// description have 1 to 255 characters, and the position must start
/// strictly before it ends, which is judged whatever the fields are like.
pub open spec fn experience_errors(experience: ExperienceView) -> ValidationErrors {
    ValidationErrors {
        company_name: !length_within(experience.company_name, 1, 255),
        description: !length_within(experience.description, 1, 255),
        schema: if experience.start_time.before(experience.end_time) {
            None
        } else {
            Some(Entity::Experience)
        },
        ..ValidationErrors::none()
    }
}

impl Experience {
    /// Validates the experience: valid, or every rule that it breaks.
    pub fn validate(&self) -> (outcome: Result<(), ValidationErrors>)
        ensures
            outcome == experience_errors(self@).verdict(),
    {
        let errors = ValidationErrors {
            company_name: !check_length(self.company_name.as_str(), 1, 255),
            description: !check_length(self.description.as_str(), 1, 255),
            schema: if self.start_time.is_before(&self.end_time) {
                None
            } else {
                Some(Entity::Experience)
            },
            ..ValidationErrors::new()
        };
        errors.into_result()
    }
}

} // verus!
