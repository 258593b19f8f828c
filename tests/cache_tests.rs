use pgpool::{
    check_readonly, lookup_key, plan_prepare, storage_key, PreparePlan, StatementCache, StatementCacheKey,
    StatementCaches, StaticStatementCacheKey,
};

#[test]
fn set_then_get_returns_the_handle() {
    let mut c: StatementCache<u64> = StatementCache::new();
    let k = StatementCacheKey::borrowed("SELECT $1", &[23]);
    assert_eq!(c.get(&k), None);
    c.set(StaticStatementCacheKey::owned("SELECT $1".to_string(), vec![23]), 11);
    assert_eq!(c.get(&k), Some(11));
    // other parameter types, other text, typed keys are distinct
    assert_eq!(c.get(&StatementCacheKey::borrowed("SELECT $1", &[25])), None);
    assert_eq!(c.get(&StatementCacheKey::borrowed("SELECT $2", &[23])), None);
    assert_eq!(c.get(&StatementCacheKey::typed(23)), None);
    c.set(StaticStatementCacheKey::typed(23), 12);
    assert_eq!(c.get(&StatementCacheKey::typed(23)), Some(12));
    assert_eq!(c.len(), 2);
}

#[test]
fn last_writer_wins() {
    let mut c: StatementCache<u64> = StatementCache::new();
    c.set(StaticStatementCacheKey::typed(1), 1);
    c.set(StaticStatementCacheKey::typed(1), 2);
    assert_eq!(c.get(&StatementCacheKey::typed(1)), Some(2));
    assert_eq!(c.len(), 1);
}

#[test]
fn clear_empties_all_lookups() {
    let mut c: StatementCache<String> = StatementCache::new();
    c.set(StaticStatementCacheKey::typed(1), "a".to_string());
    c.set(StaticStatementCacheKey::owned("q".to_string(), vec![]), "b".to_string());
    c.clear();
    assert_eq!(c.len(), 0);
    assert_eq!(c.get(&StatementCacheKey::typed(1)), None);
    assert_eq!(c.get(&StatementCacheKey::borrowed("q", &[])), None);
}

#[test]
fn registry_detach_and_cleanup() {
    let mut r: StatementCaches<&str> = StatementCaches::new();
    r.attach(1, "one");
    r.attach(2, "two");
    r.attach(3, "three");
    r.detach(2);
    assert_eq!(r.handles().clone(), vec![(1, "one"), (3, "three")]);
    // the cache of the first entry is gone
    r.cleanup(&vec![false, true]);
    assert_eq!(r.handles().clone(), vec![(3, "three")]);
    assert_eq!(r.len(), 1);
    r.cleanup(&vec![false]);
    assert_eq!(r.len(), 0);
}

#[test]
fn readonly_sessions_refuse_writes() {
    assert_eq!(check_readonly("update t set x = 1", true), None);
    assert_eq!(check_readonly("Insert into t values (1)", true), None);
    assert_eq!(check_readonly("SELECT 1", true), Some("SELECT 1"));
    assert_eq!(check_readonly("DROP TABLE t", false), Some("DROP TABLE t"));
}

#[test]
fn prepare_plans() {
    let mut c: StatementCache<u64> = StatementCache::new();
    let k = lookup_key(None, "DELETE FROM t", &[]);
    assert!(matches!(plan_prepare(&c, &k, "DELETE FROM t", true), PreparePlan::Refused));
    assert!(matches!(plan_prepare(&c, &k, "DELETE FROM t", false), PreparePlan::Prepare("DELETE FROM t")));
    c.set(storage_key(None, "DELETE FROM t".to_string(), vec![]), 3);
    assert!(matches!(plan_prepare(&c, &k, "DELETE FROM t", true), PreparePlan::Cached(3)));
    let typed = lookup_key(Some(9), "ignored", &[1]);
    assert!(matches!(plan_prepare(&c, &typed, "SELECT 1", true), PreparePlan::Prepare("SELECT 1")));
}
