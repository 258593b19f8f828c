use pgpool::{ro, PoolConfig, RecyclingMethod, Timeouts, CLEAN_SCRIPT};

#[test]
fn timeouts_builders_set_one_phase_each() {
    let t = Timeouts::new();
    assert_eq!(t, Timeouts { wait: None, create: None, recycle: None });
    assert_eq!(Timeouts::default(), t);
    let t = t.wait(5).create(6).recycle(7);
    assert_eq!(t, Timeouts { wait: Some(5), create: Some(6), recycle: Some(7) });
    assert!(!t.is_non_blocking());
    assert!(t.wait(0).is_non_blocking());
}

#[test]
fn recycling_queries() {
    assert_eq!(RecyclingMethod::default(), RecyclingMethod::Fast);
    assert_eq!(RecyclingMethod::Fast.query(), None);
    assert_eq!(RecyclingMethod::Verified.query(), Some(""));
    let clean = RecyclingMethod::Clean.query().unwrap();
    assert_eq!(clean, CLEAN_SCRIPT);
    assert!(clean.starts_with("CLOSE ALL;"));
    assert!(clean.contains("DISCARD TEMP;"));
    assert!(clean.ends_with("DISCARD SEQUENCES;"));
}

#[test]
fn pool_config_defaults() {
    let c = PoolConfig::new(Some(3));
    assert_eq!(c.max_connections, 12);
    assert_eq!(c.max_retries, 6);
    assert_eq!(c.channel_size, 64);
    assert!(!c.readonly);
    assert_eq!(c.recycling_method, RecyclingMethod::Fast);
    assert_eq!(c.timeouts, Timeouts::new());
    assert_eq!(PoolConfig::new(None).max_connections, 8);
}

#[test]
fn pool_config_builders() {
    let c = PoolConfig::new(None).readonly().max_connections(2).channel_size(5).max_retries(1);
    assert!(c.readonly);
    assert_eq!(c.max_connections, 2);
    assert_eq!(c.channel_size, 5);
    assert_eq!(c.max_retries, 1);
}

#[test]
fn access_mode_names() {
    assert_eq!(ro(true), "read-only");
    assert_eq!(ro(false), "writable");
}
