use vstd::prelude::*;

use crate::cache::StatementCache;
use crate::key::{CacheKeyModel, StatementCacheKey, StaticStatementCacheKey};
use crate::readonly::{check_readonly, writes};

verus! {

/// The key a query is looked up under: its row-shape tag when it is
/// statically known, else its text and parameter types.
pub fn lookup_key(tag: Option<u64>, query: &str, types: &[u32]) -> (r: StatementCacheKey)
    ensures
        r@ == match tag {
            Some(t) => CacheKeyModel::Typed(t),
            None => CacheKeyModel::Keyed(query@, types@),
        },
{
    match tag {
        Some(t) => StatementCacheKey::typed(t),
        None => StatementCacheKey::borrowed(query, types),
    }
}

/// The key a prepared query is filed under; the same as its lookup key.
pub fn storage_key(tag: Option<u64>, query: String, types: Vec<u32>) -> (r: StaticStatementCacheKey)
    ensures
        r@ == match tag {
            Some(t) => CacheKeyModel::Typed(t),
            None => CacheKeyModel::Keyed(query@, types@),
        },
{
    match tag {
        Some(t) => StaticStatementCacheKey::typed(t),
        None => StaticStatementCacheKey::owned(query, types),
    }
}

/// The first half of preparing a query through a session's cache.
pub enum PreparePlan<'a, S> {
    /// The cache holds a handle for it.
    Cached(S),
    /// Prepare this text on the session, then file the handle.
    Prepare(&'a str),
    /// The session is read-only and the text writes.
    Refused,
}

pub fn plan_prepare<'a, S: Clone>(
    cache: &StatementCache<S>,
    key: &StatementCacheKey,
    sql: &'a str,
    readonly: bool,
) -> (r: PreparePlan<'a, S>)
    ensures
        cache@.contains_key(key@) ==> (r matches PreparePlan::Cached(v) && cloned(cache@[key@], v)),
        !cache@.contains_key(key@) ==> (r matches PreparePlan::Prepare(q) ==> q == sql),
        !cache@.contains_key(key@) && !readonly ==> r == PreparePlan::<'a, S>::Prepare(sql),
        !cache@.contains_key(key@) && readonly && writes(sql) ==> r is Refused,
        r is Refused ==> !cache@.contains_key(key@) && readonly,
        r matches PreparePlan::Prepare(_) ==> !(readonly && writes(sql)),
{
    match cache.get(key) {
        Some(stmt) => PreparePlan::Cached(stmt),
        None => match check_readonly(sql, readonly) {
            Some(q) => PreparePlan::Prepare(q),
            None => PreparePlan::Refused,
        },
    }
}

} // verus!
