//! Listing candidates for an employer: which candidates answer a query, how
//! many of them are shown, and what is shown of each.

use vstd::prelude::*;
use crate::dtos::candidate::{Candidate, CandidateView, SimpleCandidate, SimpleCandidateView};
use crate::dtos::list_candidate::{ListCandidate, SubscriptionLevel};

verus! {

/// Whether a candidate answers a query: it is on record under an
/// identifier, it is marked available, it looks for the job asked for, and
/// both ends of the time asked for lie within its availability.
pub open spec fn answers(row: CandidateView, query: ListCandidate) -> bool {
    &&& row.id is Some
    &&& row.is_available
    &&& row.job_id == query.job_id
    &&& row.available_from.not_after(query.start_date)
    &&& query.start_date.not_after(row.available_to)
    &&& row.available_from.not_after(query.end_date)
    &&& query.end_date.not_after(row.available_to)
}

/// What a listing at `level` shows of a candidate: its contact fields only
/// where the level does not hide them.
pub open spec fn summary(row: CandidateView, level: SubscriptionLevel) -> SimpleCandidateView {
    SimpleCandidateView {
        id: row.id->Some_0,
        first_name: row.first_name,
        last_name: row.last_name,
        email: if level.spec_hides_contact() {
            None
        } else {
            Some(row.email)
        },
        phone_number: if level.spec_hides_contact() {
            None
        } else {
            Some(row.phone_number)
        },
        available_from: row.available_from,
        available_to: row.available_to,
    }
}

/// The test that picks the candidates answering `query`.
pub open spec fn answering(query: ListCandidate) -> spec_fn(CandidateView) -> bool {
    |row: CandidateView| answers(row, query)
}

/// The first `limit` items of `rows`, or all of them if there are fewer.
pub open spec fn capped<T>(rows: Seq<T>, limit: int) -> Seq<T> {
    if rows.len() <= limit {
        rows
    } else {
        rows.take(limit)
    }
}

/// The listing that a query gets from the candidates on record: those that
/// answer it, in the order of the record, no more of them than the level
/// allows, each as the level shows it.
pub open spec fn listing(rows: Seq<CandidateView>, query: ListCandidate) -> Seq<
    SimpleCandidateView,
> {
    capped(rows.filter(answering(query)), query.subscription_level.spec_row_limit() as int).map_values(
        |row: CandidateView| summary(row, query.subscription_level),
    )
}

/// What each of `rows` holds.
pub open spec fn views(rows: Seq<Candidate>) -> Seq<CandidateView> {
    rows.map_values(|row: Candidate| row@)
}

/// What each of `shown` holds.
pub open spec fn summaries(shown: Seq<SimpleCandidate>) -> Seq<SimpleCandidateView> {
    shown.map_values(|row: SimpleCandidate| row@)
}

impl Candidate {
    /// Whether the candidate answers `query`.
    pub fn answers(&self, query: &ListCandidate) -> (yes: bool)
        ensures
            yes == answers(self@, *query),
    {
        self.id.is_some() && self.is_available && self.job_id == query.job_id
            && self.available_from.is_not_after(&query.start_date)
            && query.start_date.is_not_after(&self.available_to)
            && self.available_from.is_not_after(&query.end_date)
            && query.end_date.is_not_after(&self.available_to)
    }

    /// What a listing at `level` shows of the candidate, if the candidate is
    /// on record under an identifier.
    pub fn summarize(&self, level: SubscriptionLevel) -> (shown: Option<SimpleCandidate>)
        ensures
            shown is Some <==> self@.id is Some,
            shown matches Some(row) ==> row@ == summary(self@, level),
    {
        let id = match self.id {
            Some(id) => id,
            None => {
                return None;
            },
        };
        let hidden = level.hides_contact();
        Some(
            SimpleCandidate {
                id,
                first_name: self.first_name.clone(),
                last_name: self.last_name.clone(),
                email: if hidden {
                    None
                } else {
                    Some(self.email.clone())
                },
                phone_number: if hidden {
                    None
                } else {
                    Some(self.phone_number.clone())
                },
                available_from: self.available_from,
                available_to: self.available_to,
            },
        )
    }
}

/// Taking one more row into account adds it to the listing if it answers
/// the query and the listing is not full, and changes nothing otherwise.
pub proof fn lemma_listing_push(rows: Seq<CandidateView>, row: CandidateView, query: ListCandidate)
    ensures
        listing(rows.push(row), query) == if answers(row, query) && listing(rows, query).len()
            < query.subscription_level.spec_row_limit() {
            listing(rows, query).push(summary(row, query.subscription_level))
        } else {
            listing(rows, query)
        },
        listing(rows, query).len() <= query.subscription_level.spec_row_limit(),
{
    let test = answering(query);
    let limit = query.subscription_level.spec_row_limit() as int;
    let shows = |row: CandidateView| summary(row, query.subscription_level);
    let found = rows.filter(test);
    rows.lemma_filter_push(row, test);
    if answers(row, query) {
        let more = found.push(row);
        assert(rows.push(row).filter(test) == more);
        if found.len() < limit {
            assert(capped(more, limit) =~= capped(found, limit).push(row));
            assert(capped(found, limit).push(row).map_values(shows) =~= capped(
                found,
                limit,
            ).map_values(shows).push(shows(row)));
        } else {
            assert(capped(more, limit) =~= capped(found, limit));
        }
    }
}

/// The listing that a query gets from the candidates on record.
pub fn list_candidates(rows: &Vec<Candidate>, query: &ListCandidate) -> (shown: Vec<SimpleCandidate>)
    ensures
        summaries(shown@) == listing(views(rows@), *query),
{
    let limit = query.subscription_level.row_limit();
    let mut shown: Vec<SimpleCandidate> = Vec::new();
    let mut i: usize = 0;
    proof {
        assert(views(rows@).take(0) =~= Seq::<CandidateView>::empty());
        reveal(Seq::filter);
        assert(summaries(shown@) =~= listing(Seq::<CandidateView>::empty(), *query));
    }
    while i < rows.len()
        invariant
            i <= rows.len(),
            limit == query.subscription_level.spec_row_limit(),
            summaries(shown@) == listing(views(rows@).take(i as int), *query),
        decreases rows.len() - i,
    {
        let row = &rows[i];
        proof {
            lemma_listing_push(views(rows@).take(i as int), row@, *query);
            assert(views(rows@).take(i + 1) =~= views(rows@).take(i as int).push(row@));
            assert(summaries(shown@).len() == shown@.len());
        }
        if shown.len() < limit as usize && row.answers(query) {
            match row.summarize(query.subscription_level) {
                Some(entry) => {
                    proof {
                        assert(summaries(shown@.push(entry)) =~= summaries(shown@).push(entry@));
                    }
                    shown.push(entry);
                },
                None => {},
            }
        }
        i = i + 1;
    }
    proof {
        assert(views(rows@).take(rows.len() as int) =~= views(rows@));
    }
    shown
}

} // verus!
