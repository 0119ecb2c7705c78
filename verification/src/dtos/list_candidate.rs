//! The query of a listing of candidates, and what each subscription level
//! may see of it.

use vstd::prelude::*;
use crate::timestamp::Timestamp;
use crate::validation::{Entity, ValidationErrors};

verus! {

/// The subscription level of the employer that asks for a listing, from
/// the lowest to the highest. The two lower levels get short listings
/// without contact fields, the two higher ones long listings with them.
#[derive(Clone, Copy, Debug, PartialEq, Eq, Structural)]
pub enum SubscriptionLevel {
    Free,
    Silver,
    Gold,
    Platinium,
}

impl SubscriptionLevel {
    /// The most candidates that a listing shows at this level.
    pub open spec fn spec_row_limit(self) -> i16 {
        match self {
            SubscriptionLevel::Free | SubscriptionLevel::Silver => 3,
            SubscriptionLevel::Gold | SubscriptionLevel::Platinium => 10000,
        }
    }

    /// Whether a listing at this level leaves out how to contact the
    /// candidates: it does at the two lower levels.
    pub open spec fn spec_hides_contact(self) -> bool {
        match self {
            SubscriptionLevel::Free | SubscriptionLevel::Silver => true,
            SubscriptionLevel::Gold | SubscriptionLevel::Platinium => false,
        }
    }

    /// The most candidates that a listing shows at this level.
    #[verifier::when_used_as_spec(spec_row_limit)]
    pub fn row_limit(self) -> (limit: i16)
        ensures
            limit == self.spec_row_limit(),
    {
        match self {
            SubscriptionLevel::Free | SubscriptionLevel::Silver => 3,
            SubscriptionLevel::Gold | SubscriptionLevel::Platinium => 10000,
        }
    }

    /// Whether a listing at this level leaves out how to contact the
    /// candidates.
    #[verifier::when_used_as_spec(spec_hides_contact)]
    pub fn hides_contact(self) -> (hidden: bool)
        ensures
            hidden == self.spec_hides_contact(),
    {
        match self {
            SubscriptionLevel::Free | SubscriptionLevel::Silver => true,
            SubscriptionLevel::Gold | SubscriptionLevel::Platinium => false,
        }
    }
}

/// The query of a listing: the job looked for, the time for which the
/// candidates are needed, and the subscription level of who asks.
#[derive(Clone, Copy, Debug, PartialEq, Eq, Structural)]
pub struct ListCandidate {
    pub job_id: u128,
    pub start_date: Timestamp,
    pub end_date: Timestamp,
    pub subscription_level: SubscriptionLevel,
}

/// The rules that a query breaks: the time asked for must start strictly
/// before it ends.
pub open spec fn list_candidate_errors(query: ListCandidate) -> ValidationErrors {
    ValidationErrors {
        schema: if query.start_date.before(query.end_date) {
            None
        } else {
            Some(Entity::ListCandidate)
        },
        ..ValidationErrors::none()
    }
}

impl ListCandidate {
    /// Validates the query: valid, or the rule that it breaks.
    pub fn validate(&self) -> (outcome: Result<(), ValidationErrors>)
        ensures
            outcome == list_candidate_errors(*self).verdict(),
    {
        let errors = ValidationErrors {
            schema: if self.start_date.is_before(&self.end_date) {
                None
            } else {
                Some(Entity::ListCandidate)
            },
            ..ValidationErrors::new()
        };
        errors.into_result()
    }
}

} // verus!
