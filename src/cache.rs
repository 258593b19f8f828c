use vstd::prelude::*;

use crate::key::{CacheKeyModel, StatementCacheKey, StaticStatementCacheKey};

verus! {

/// The value filed under `k` in a list of entries: the first one with that key.
pub open spec fn lookup<S>(s: Seq<(CacheKeyModel, S)>, k: CacheKeyModel) -> Option<S>
    decreases s.len(),
{
    if s.len() == 0 {
        None
    } else if s[0].0 == k {
        Some(s[0].1)
    } else {
        lookup(s.drop_first(), k)
    }
}

proof fn lemma_lookup_skip<S>(s: Seq<(CacheKeyModel, S)>, i: int, k: CacheKeyModel)
    requires
        0 <= i < s.len(),
        forall|j: int| 0 <= j < i ==> s[j].0 != k,
    ensures
        lookup(s, k) == lookup(s.subrange(i, s.len() as int), k),
    decreases i,
{
    if i > 0 {
        lemma_lookup_skip(s.drop_first(), i - 1, k);
        assert(s[0].0 != k);
        assert(s.drop_first().subrange(i - 1, s.drop_first().len() as int) =~= s.subrange(
            i,
            s.len() as int,
        ));
    } else {
        assert(s.subrange(0, s.len() as int) =~= s);
    }
}

proof fn lemma_lookup_absent<S>(s: Seq<(CacheKeyModel, S)>, k: CacheKeyModel)
    requires
        forall|j: int| 0 <= j < s.len() ==> s[j].0 != k,
    ensures
        lookup(s, k) is None,
    decreases s.len(),
{
    if s.len() > 0 {
        lemma_lookup_absent(s.drop_first(), k);
    }
}

proof fn lemma_lookup_update<S>(s: Seq<(CacheKeyModel, S)>, i: int, k: CacheKeyModel, v: S, q: CacheKeyModel)
    requires
        0 <= i < s.len(),
        s[i].0 == k,
        forall|j: int| 0 <= j < i ==> s[j].0 != k,
    ensures
        lookup(s.update(i, (k, v)), q) == if q == k {
            Some(v)
        } else {
            lookup(s, q)
        },
    decreases i,
{
    if i > 0 {
        lemma_lookup_update(s.drop_first(), i - 1, k, v, q);
        assert(s.update(i, (k, v)).drop_first() =~= s.drop_first().update(i - 1, (k, v)));
        assert(s.update(i, (k, v))[0] == s[0]);
    } else {
        assert(s.update(i, (k, v)).drop_first() =~= s.drop_first());
        assert(s.update(i, (k, v))[0] == (k, v));
    }
}

proof fn lemma_lookup_push<S>(s: Seq<(CacheKeyModel, S)>, k: CacheKeyModel, v: S, q: CacheKeyModel)
    requires
        forall|j: int| 0 <= j < s.len() ==> s[j].0 != k,
    ensures
        lookup(s.push((k, v)), q) == if q == k {
            Some(v)
        } else {
            lookup(s, q)
        },
    decreases s.len(),
{
    if s.len() > 0 {
        assert forall|j: int| 0 <= j < s.drop_first().len() implies s.drop_first()[j].0 != k by {
            assert(s.drop_first()[j] == s[j + 1]);
        }
        lemma_lookup_push(s.drop_first(), k, v, q);
        assert(s.push((k, v)).drop_first() =~= s.drop_first().push((k, v)));
        assert(s.push((k, v))[0] == s[0]);
    } else {
        assert(s.push((k, v))[0] == (k, v));
        assert(s.push((k, v)).drop_first() =~= Seq::<(CacheKeyModel, S)>::empty());
        assert(lookup(s.push((k, v)).drop_first(), q) is None);
    }
}

/// One session's prepared statements, by key.
pub struct StatementCache<S> {
    entries: Vec<(StaticStatementCacheKey, S)>,
}

impl<S> StatementCache<S> {
    /// The entries as values, in the order in which they were filed.
    pub closed spec fn entries(&self) -> Seq<(CacheKeyModel, S)> {
        Seq::new(self.entries@.len(), |i: int| (self.entries@[i].0@, self.entries@[i].1))
    }

    /// The cache as a map from key to statement.
    pub open spec fn view(&self) -> Map<CacheKeyModel, S> {
        Map::new(|k: CacheKeyModel| lookup(self.entries(), k) is Some, |k: CacheKeyModel| lookup(self.entries(), k)->0)
    }

    pub fn new() -> (r: Self)
        ensures
            r@ == Map::<CacheKeyModel, S>::empty(),
    {
        let r = StatementCache { entries: Vec::new() };
        assert(r@ =~= Map::<CacheKeyModel, S>::empty());
        r
    }

    /// The position of the entry filed under `key`, if there is one.
    fn find(&self, key: &StatementCacheKey) -> (r: Option<usize>)
        ensures
            match r {
                Some(i) => i < self.entries().len() && self.entries()[i as int].0 == key@
                    && forall|j: int| 0 <= j < i ==> self.entries()[j].0 != key@,
                None => forall|j: int| 0 <= j < self.entries().len() ==> self.entries()[j].0 != key@,
            },
    {
        let mut i: usize = 0;
        while i < self.entries.len()
            invariant
                0 <= i <= self.entries@.len(),
                forall|j: int| 0 <= j < i ==> self.entries()[j].0 != key@,
            decreases self.entries@.len() - i,
        {
            if self.entries[i].0.0.same_as(key) {
                return Some(i);
            }
            i = i + 1;
        }
        None
    }

    /// A copy of the handle filed under `key`, if any.
    pub fn get(&self, key: &StatementCacheKey) -> (r: Option<S>)
        where
            S: Clone,
        ensures
            r is Some <==> self@.contains_key(key@),
            r matches Some(v) ==> cloned(self@[key@], v),
    {
        match self.find(key) {
            Some(i) => {
                proof {
                    lemma_lookup_skip(self.entries(), i as int, key@);
                    assert(self.entries().subrange(i as int, self.entries().len() as int)[0]
                        == self.entries()[i as int]);
                }
                Some(self.entries[i].1.clone())
            },
            None => {
                proof {
                    lemma_lookup_absent(self.entries(), key@);
                }
                None
            },
        }
    }

    /// Files `stmt` under `key`, replacing what was filed there.
    pub fn set(&mut self, key: StaticStatementCacheKey, stmt: S)
        ensures
            final(self)@ == old(self)@.insert(key@, stmt),
    {
        let ghost k = key@;
        let ghost old_entries = self.entries();
        match self.find(&key.0) {
            Some(i) => {
                self.entries.set(i, (key, stmt));
                proof {
                    assert(self.entries() =~= old_entries.update(i as int, (k, stmt)));
                    assert forall|q: CacheKeyModel| lookup(self.entries(), q) == if q == k {
                        Some(stmt)
                    } else {
                        lookup(old_entries, q)
                    } by {
                        lemma_lookup_update(old_entries, i as int, k, stmt, q);
                    }
                }
            },
            None => {
                self.entries.push((key, stmt));
                proof {
                    assert(self.entries() =~= old_entries.push((k, stmt)));
                    assert forall|q: CacheKeyModel| lookup(self.entries(), q) == if q == k {
                        Some(stmt)
                    } else {
                        lookup(old_entries, q)
                    } by {
                        lemma_lookup_push(old_entries, k, stmt, q);
                    }
                }
            },
        }
        assert(self@ =~= old(self)@.insert(k, stmt));
    }

    /// Forgets every statement.
    pub fn clear(&mut self)
        ensures
            final(self)@ == Map::<CacheKeyModel, S>::empty(),
    {
        self.entries.clear();
        assert(self@ =~= Map::<CacheKeyModel, S>::empty());
    }

    pub fn len(&self) -> (r: usize)
        ensures
            r == self.entries().len(),
    {
        self.entries.len()
    }
}

/// `s` without the entries registered under `id`.
pub open spec fn without<W>(s: Seq<(u64, W)>, id: u64) -> Seq<(u64, W)>
    decreases s.len(),
{
    if s.len() == 0 {
        s
    } else if s.last().0 == id {
        without(s.drop_last(), id)
    } else {
        without(s.drop_last(), id).push(s.last())
    }
}

/// The entries of `s` whose mark in `live` is set.
pub open spec fn marked<W>(s: Seq<(u64, W)>, live: Seq<bool>) -> Seq<(u64, W)>
    decreases s.len(),
{
    if s.len() == 0 || live.len() < s.len() {
        Seq::empty()
    } else if live[s.len() - 1] {
        marked(s.drop_last(), live).push(s.last())
    } else {
        marked(s.drop_last(), live)
    }
}

proof fn lemma_marked_kept<W>(s: Seq<(u64, W)>, live: Seq<bool>)
    requires
        live.len() >= s.len(),
    ensures
        forall|e: (u64, W)|
            #[trigger] marked(s, live).contains(e) ==> exists|i: int|
                0 <= i < s.len() && live[i] && s[i] == e,
    decreases s.len(),
{
    if s.len() > 0 {
        lemma_marked_kept(s.drop_last(), live);
        let m = marked(s.drop_last(), live);
        assert forall|e: (u64, W)| #[trigger] marked(s, live).contains(e) implies exists|i: int|
            0 <= i < s.len() && live[i] && s[i] == e by {
            if m.contains(e) {
                let i = choose|i: int| 0 <= i < s.drop_last().len() && live[i] && s.drop_last()[i] == e;
                assert(s[i] == e);
            } else {
                assert(e == s.last());
                assert(live[s.len() - 1]);
            }
        }
    }
}

/// The live statement caches, by weak handle: registering a cache does not
/// keep it alive, so entries go stale when their cache is dropped.
pub struct StatementCaches<W> {
    caches: Vec<(u64, W)>,
}

impl<W> StatementCaches<W> {
    /// The registered handles, oldest first, each with the id of its cache.
    pub closed spec fn view(&self) -> Seq<(u64, W)> {
        self.caches@
    }

    pub fn new() -> (r: Self)
        ensures
            r@ == Seq::<(u64, W)>::empty(),
    {
        StatementCaches { caches: Vec::new() }
    }

    pub fn attach(&mut self, id: u64, cache: W)
        ensures
            final(self)@ == old(self)@.push((id, cache)),
    {
        self.caches.push((id, cache));
    }

    /// Unregisters the cache with this id.
    pub fn detach(&mut self, id: u64)
        ensures
            final(self)@ == without(old(self)@, id),
            forall|i: int| 0 <= i < final(self)@.len() ==> #[trigger] final(self)@[i].0 != id,
    {
        let mut old_caches: Vec<(u64, W)> = Vec::new();
        std::mem::swap(&mut old_caches, &mut self.caches);
        let ghost s = old_caches@;
        let n: usize = old_caches.len();
        let mut kept: Vec<(u64, W)> = Vec::new();
        let mut i: usize = 0;
        proof {
            assert(s.subrange(0, 0) =~= Seq::<(u64, W)>::empty());
        }
        while old_caches.len() > 0
            invariant
                0 <= i <= s.len(),
                old_caches@ == s.subrange(i as int, s.len() as int),
                old_caches@.len() + i == s.len(),
                s.len() == n,
                kept@ == without(s.subrange(0, i as int), id),
            decreases s.len() - i,
        {
            proof {
                assert(s.subrange(0, i as int + 1).drop_last() =~= s.subrange(0, i as int));
                assert(s.subrange(0, i as int + 1).last() == s[i as int]);
            }
            let e = old_caches.remove(0);
            assert(e == s[i as int]);
            if e.0 != id {
                kept.push(e);
            }
            assert(old_caches@ =~= s.subrange(i as int + 1, s.len() as int));
            i = i + 1;
        }
        assert(s.subrange(0, s.len() as int) =~= s);
        proof {
            lemma_without_free(s, id);
        }
        self.caches = kept;
    }

    /// Drops the entries whose cache is gone: `live[i]` says whether the
    /// cache of the `i`-th entry still exists.
    pub fn cleanup(&mut self, live: &Vec<bool>)
        requires
            live@.len() == old(self)@.len(),
        ensures
            final(self)@ == marked(old(self)@, live@),
            forall|e: (u64, W)| #[trigger] final(self)@.contains(e) ==> exists|i: int|
                0 <= i < old(self)@.len() && live@[i] && old(self)@[i] == e,
    {
        let mut old_caches: Vec<(u64, W)> = Vec::new();
        std::mem::swap(&mut old_caches, &mut self.caches);
        let ghost s = old_caches@;
        let n: usize = old_caches.len();
        let mut kept: Vec<(u64, W)> = Vec::new();
        let mut i: usize = 0;
        proof {
            assert(s.subrange(0, 0) =~= Seq::<(u64, W)>::empty());
        }
        while old_caches.len() > 0
            invariant
                0 <= i <= s.len(),
                live@.len() == s.len(),
                old_caches@ == s.subrange(i as int, s.len() as int),
                old_caches@.len() + i == s.len(),
                s.len() == n,
                kept@ == marked(s.subrange(0, i as int), live@),
            decreases s.len() - i,
        {
            proof {
                assert(s.subrange(0, i as int + 1).drop_last() =~= s.subrange(0, i as int));
                assert(s.subrange(0, i as int + 1).last() == s[i as int]);
            }
            let e = old_caches.remove(0);
            assert(e == s[i as int]);
            if live[i] {
                kept.push(e);
            }
            assert(old_caches@ =~= s.subrange(i as int + 1, s.len() as int));
            i = i + 1;
        }
        assert(s.subrange(0, s.len() as int) =~= s);
        proof {
            lemma_marked_kept(s, live@);
        }
        self.caches = kept;
    }

    /// The registered handles, for a broadcast clear.
    pub fn handles(&self) -> (r: &Vec<(u64, W)>)
        ensures
            r@ == self@,
    {
        &self.caches
    }

    pub fn len(&self) -> (r: usize)
        ensures
            r == self@.len(),
    {
        self.caches.len()
    }
}

proof fn lemma_without_free<W>(s: Seq<(u64, W)>, id: u64)
    ensures
        forall|i: int| 0 <= i < without(s, id).len() ==> #[trigger] without(s, id)[i].0 != id,
    decreases s.len(),
{
    if s.len() > 0 {
        lemma_without_free(s.drop_last(), id);
        let w = without(s.drop_last(), id);
        if s.last().0 != id {
            assert forall|i: int| 0 <= i < w.push(s.last()).len() implies #[trigger] w.push(s.last())[i].0
                != id by {
                if i < w.len() {
                    assert(w.push(s.last())[i] == w[i]);
                }
            }
        }
    }
}

/// Cache correctness: after `set(k, v)` a lookup of `k` finds `v` and every
/// other key finds what it found before; after `clear()` no key finds anything.
pub proof fn cache_correctness<S>(before: Map<CacheKeyModel, S>, k: CacheKeyModel, v: S, q: CacheKeyModel)
    ensures
        before.insert(k, v).contains_key(k),
        before.insert(k, v)[k] == v,
        q != k ==> before.insert(k, v).contains_key(q) == before.contains_key(q),
        q != k && before.contains_key(q) ==> before.insert(k, v)[q] == before[q],
        !Map::<CacheKeyModel, S>::empty().contains_key(q),
{
}

/// A registry entry whose cache is gone is pruned by `cleanup`.
pub proof fn cleanup_prunes_dead<W>(s: Seq<(u64, W)>, live: Seq<bool>, i: int)
    requires
        live.len() == s.len(),
        0 <= i < s.len(),
        forall|j: int| 0 <= j < s.len() && s[j] == s[i] ==> !live[j],
    ensures
        !marked(s, live).contains(s[i]),
{
    lemma_marked_kept(s, live);
    if marked(s, live).contains(s[i]) {
        let j = choose|j: int| 0 <= j < s.len() && live[j] && s[j] == s[i];
        assert(!live[j]);
    }
}

} // verus!
