//! What the handlers ask of the store, and how they read its answers. The
//! store itself is not part of this library: a handler says which records a
//! statement is aimed at, and is told afterwards what came of it.

use vstd::prelude::*;
use crate::error::{AppError, ErrorKind};
use crate::utils::{check_query_effective, mutation_outcome};

verus! {

/// The records that a statement is aimed at: the one with this identifier,
/// and, where an owner is given, only if it belongs to that owner.
#[derive(Clone, Copy, Debug, PartialEq, Eq, Structural)]
pub struct Scope {
    pub id: u128,
    pub owner: Option<u128>,
}

/// The records that a lookup of several is aimed at: all those of one
/// owner.
#[derive(Clone, Copy, Debug, PartialEq, Eq, Structural)]
pub struct OwnedBy {
    pub owner: u128,
}

/// What the store says of an insert, update or delete.
#[derive(Clone, Copy, Debug, PartialEq, Eq, Structural)]
pub enum StoreReply {
    /// The statement could not be carried out.
    Failed,
    /// The statement was carried out and affected this many records.
    Affected(u64),
}

/// What the store says of a lookup of one record.
#[derive(Clone, Debug, PartialEq, Eq)]
pub enum Fetched<T> {
    /// The lookup could not be carried out.
    Failed,
    /// There is no such record.
    Missing,
    /// The record.
    Found(T),
}

/// How an update or delete aimed at one record ends.
pub open spec fn mutation_result(reply: StoreReply) -> Result<(), AppError> {
    match reply {
        StoreReply::Failed => Err(AppError(ErrorKind::StorageFailure)),
        StoreReply::Affected(rows) => mutation_outcome(rows),
    }
}

/// How an insert ends: any answer of the store but a failure is success.
pub open spec fn insert_result(reply: StoreReply) -> Result<(), AppError> {
    match reply {
        StoreReply::Failed => Err(AppError(ErrorKind::StorageFailure)),
        StoreReply::Affected(_) => Ok(()),
    }
}

/// How a lookup of one record ends.
pub open spec fn fetch_result<T>(reply: Fetched<T>) -> Result<T, AppError> {
    match reply {
        Fetched::Failed => Err(AppError(ErrorKind::StorageFailure)),
        Fetched::Missing => Err(AppError(ErrorKind::NotFound)),
        Fetched::Found(record) => Ok(record),
    }
}

/// How a lookup of several records ends.
pub open spec fn list_result<T>(reply: Option<Vec<T>>) -> Result<Vec<T>, AppError> {
    match reply {
        None => Err(AppError(ErrorKind::StorageFailure)),
        Some(records) => Ok(records),
    }
}

/// Reads the store's answer to an update or delete aimed at one record.
pub fn conclude_mutation(reply: StoreReply) -> (outcome: Result<(), AppError>)
    ensures
        outcome == mutation_result(reply),
{
    match reply {
        StoreReply::Failed => Err(AppError(ErrorKind::StorageFailure)),
        StoreReply::Affected(rows) => check_query_effective(rows),
    }
}

/// Reads the store's answer to an insert.
pub fn conclude_insert(reply: StoreReply) -> (outcome: Result<(), AppError>)
    ensures
        outcome == insert_result(reply),
{
    match reply {
        StoreReply::Failed => Err(AppError(ErrorKind::StorageFailure)),
        StoreReply::Affected(_) => Ok(()),
    }
}

/// Reads the store's answer to a lookup of one record.
pub fn conclude_fetch<T>(reply: Fetched<T>) -> (outcome: Result<T, AppError>)
    ensures
        outcome == fetch_result(reply),
{
    match reply {
        Fetched::Failed => Err(AppError(ErrorKind::StorageFailure)),
        Fetched::Missing => Err(AppError(ErrorKind::NotFound)),
        Fetched::Found(record) => Ok(record),
    }
}

/// Reads the store's answer to a lookup of several records: the records, or
/// nothing if the lookup could not be carried out.
pub fn conclude_list<T>(reply: Option<Vec<T>>) -> (outcome: Result<Vec<T>, AppError>)
    ensures
        outcome == list_result(reply),
{
    match reply {
        None => Err(AppError(ErrorKind::StorageFailure)),
        Some(records) => Ok(records),
    }
}

/// A record as a statement sees it: its identifier and its owner.
pub struct Owned {
    pub id: u128,
    pub owner: u128,
}

/// Whether a statement with this scope is aimed at the record.
pub open spec fn in_scope(record: Owned, scope: Scope) -> bool {
    record.id == scope.id && (scope.owner matches Some(owner) ==> record.owner == owner)
}

/// The test that picks the records a statement with this scope is aimed at.
pub open spec fn aimed_at(scope: Scope) -> spec_fn(Owned) -> bool {
    |record: Owned| in_scope(record, scope)
}

/// The number of records that a statement with this scope affects in a
/// store that holds `records`.
pub open spec fn affected(records: Seq<Owned>, scope: Scope) -> nat {
    records.filter(aimed_at(scope)).len()
}

/// Whether no two of the records share an identifier.
pub open spec fn unique_ids(records: Seq<Owned>) -> bool {
    forall|i: int, j: int|
        0 <= i < j < records.len() ==> (#[trigger] records[i]).id != (#[trigger] records[j]).id
}

/// A statement affects no record if none is within its scope.
pub proof fn lemma_none_in_scope(records: Seq<Owned>, scope: Scope)
    requires
        forall|i: int| 0 <= i < records.len() ==> !in_scope(#[trigger] records[i], scope),
    ensures
        affected(records, scope) == 0,
    decreases records.len(),
{
    reveal(Seq::filter);
    if records.len() > 0 {
        lemma_none_in_scope(records.drop_last(), scope);
    }
}

/// In a store whose identifiers are unique, a statement aimed at one
/// identifier affects at most one record.
pub proof fn lemma_unique_ids_affect_one(records: Seq<Owned>, scope: Scope)
    requires
        unique_ids(records),
    ensures
        affected(records, scope) <= 1,
    decreases records.len(),
{
    reveal(Seq::filter);
    if records.len() > 0 {
        let rest = records.drop_last();
        lemma_unique_ids_affect_one(rest, scope);
        if in_scope(records.last(), scope) {
            assert forall|i: int| 0 <= i < rest.len() implies !in_scope(
                #[trigger] rest[i],
                scope,
            ) by {
                assert(rest[i] == records[i]);
                assert(records[i].id != records[records.len() - 1].id);
            }
            lemma_none_in_scope(rest, scope);
        }
    }
}

} // verus!
