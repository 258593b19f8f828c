use vstd::prelude::*;

verus! {

/// A dynamically built query: its text and the type identifiers (OIDs) of
/// its parameters, in order.
pub struct StatementCacheKeyedKey {
    pub query: String,
    pub types: Vec<u32>,
}

/// What a cached statement is filed under.
pub enum StatementCacheKey {
    /// A statically known query, by the tag of its row shape.
    Typed(u64),
    /// A query by its text and parameter types.
    Keyed(StatementCacheKeyedKey),
}

/// The key as a value.
pub enum CacheKeyModel {
    Typed(u64),
    Keyed(Seq<char>, Seq<u32>),
}

impl View for StatementCacheKey {
    type V = CacheKeyModel;

    open spec fn view(&self) -> CacheKeyModel {
        match self {
            StatementCacheKey::Typed(t) => CacheKeyModel::Typed(*t),
            StatementCacheKey::Keyed(k) => CacheKeyModel::Keyed(k.query@, k.types@),
        }
    }
}

/// The form of a key that the cache stores.
pub struct StaticStatementCacheKey(pub StatementCacheKey);

impl View for StaticStatementCacheKey {
    type V = CacheKeyModel;

    open spec fn view(&self) -> CacheKeyModel {
        self.0@
    }
}

impl StaticStatementCacheKey {
    pub fn owned(query: String, types: Vec<u32>) -> (r: StaticStatementCacheKey)
        ensures
            r@ == CacheKeyModel::Keyed(query@, types@),
    {
        StaticStatementCacheKey(StatementCacheKey::Keyed(StatementCacheKeyedKey { query, types }))
    }

    pub fn typed(tag: u64) -> (r: StaticStatementCacheKey)
        ensures
            r@ == CacheKeyModel::Typed(tag),
    {
        StaticStatementCacheKey(StatementCacheKey::Typed(tag))
    }
}

impl StatementCacheKey {
    /// The lookup form of a dynamically built query; it copies the text.
    pub fn borrowed(query: &str, types: &[u32]) -> (r: StatementCacheKey)
        ensures
            r@ == CacheKeyModel::Keyed(query@, types@),
    {
        StatementCacheKey::Keyed(
            StatementCacheKeyedKey { query: query.to_owned(), types: vstd::slice::slice_to_vec(types) },
        )
    }

    pub fn typed(tag: u64) -> (r: StatementCacheKey)
        ensures
            r@ == CacheKeyModel::Typed(tag),
    {
        StatementCacheKey::Typed(tag)
    }

    /// Whether two keys name the same statement.
    pub fn same_as(&self, other: &StatementCacheKey) -> (r: bool)
        ensures
            r == (self@ == other@),
    {
        match (self, other) {
            (StatementCacheKey::Typed(a), StatementCacheKey::Typed(b)) => *a == *b,
            (StatementCacheKey::Keyed(a), StatementCacheKey::Keyed(b)) => {
                a.query == b.query && same_types(&a.types, &b.types)
            },
            _ => false,
        }
    }
}

fn same_types(a: &Vec<u32>, b: &Vec<u32>) -> (r: bool)
    ensures
        r == (a@ == b@),
{
    if a.len() != b.len() {
        return false;
    }
    let mut i: usize = 0;
    while i < a.len()
        invariant
            a@.len() == b@.len(),
            0 <= i <= a@.len(),
            forall|j: int| 0 <= j < i ==> a@[j] == b@[j],
        decreases a@.len() - i,
    {
        if a[i] != b[i] {
            return false;
        }
        i = i + 1;
    }
    assert(a@ =~= b@);
    true
}

} // verus!
