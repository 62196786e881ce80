use std::time::Duration;

use fantasia::pool_options::{PartialPoolOptions, PoolOptionsDef, PoolSettings, TimeSpan};
use sqlx::postgres::PgPoolOptions;

fn span(d: Duration) -> TimeSpan {
    TimeSpan { secs: d.as_secs(), nanos: d.subsec_nanos() }
}

fn nothing_set() -> PartialPoolOptions {
    PartialPoolOptions {
        test_before_acquire: None,
        acquire_timeout_secs: None,
        min_connections: None,
        max_connections: None,
        max_lifetime_secs: None,
        idle_timeout_secs: None,
    }
}

#[test]
fn defaults_are_sqlx_defaults() {
    let defaults = PoolOptionsDef::default();
    assert!(defaults.test_before_acquire);
    assert_eq!(defaults.acquire_timeout, TimeSpan::from_secs(30));
    assert_eq!(defaults.min_connections, 0);
    assert_eq!(defaults.max_connections, 10);
    assert_eq!(defaults.max_lifetime, TimeSpan::from_secs(1800));
    assert_eq!(defaults.idle_timeout, TimeSpan::from_secs(600));

    let sqlx = PgPoolOptions::new();
    assert_eq!(defaults.test_before_acquire, sqlx.get_test_before_acquire());
    assert_eq!(defaults.acquire_timeout, span(sqlx.get_acquire_timeout()));
    assert_eq!(defaults.min_connections, sqlx.get_min_connections());
    assert_eq!(defaults.max_connections, sqlx.get_max_connections());
    assert_eq!(Some(defaults.max_lifetime), sqlx.get_max_lifetime().map(span));
    assert_eq!(Some(defaults.idle_timeout), sqlx.get_idle_timeout().map(span));

    assert_eq!(PoolOptionsDef::default_pooloptions(), defaults);
}

#[test]
fn deserializing_full_pgpoolopts_succeeds() {
    let defaults = PoolOptionsDef::default();
    let given = PartialPoolOptions {
        test_before_acquire: Some(defaults.test_before_acquire),
        acquire_timeout_secs: Some(defaults.acquire_timeout.secs),
        min_connections: Some(defaults.min_connections),
        max_connections: Some(defaults.max_connections),
        max_lifetime_secs: Some(defaults.max_lifetime.secs),
        idle_timeout_secs: Some(defaults.idle_timeout.secs),
    };
    let sqlx = PgPoolOptions::new();
    let expected = PoolOptionsDef::from_settings(PoolSettings {
        test_before_acquire: sqlx.get_test_before_acquire(),
        acquire_timeout: span(sqlx.get_acquire_timeout()),
        min_connections: sqlx.get_min_connections(),
        max_connections: sqlx.get_max_connections(),
        max_lifetime: sqlx.get_max_lifetime().map(span),
        idle_timeout: sqlx.get_idle_timeout().map(span),
    });
    assert_eq!(PoolOptionsDef::from_partial(given), expected);
}

#[test]
fn deserializing_incomplete_pgpoolopts_succeeds() {
    let sqlx = PgPoolOptions::new();
    let expected = PoolOptionsDef::from_settings(PoolSettings {
        test_before_acquire: sqlx.get_test_before_acquire(),
        acquire_timeout: span(sqlx.get_acquire_timeout()),
        min_connections: sqlx.get_min_connections(),
        max_connections: sqlx.get_max_connections(),
        max_lifetime: sqlx.get_max_lifetime().map(span),
        idle_timeout: sqlx.get_idle_timeout().map(span),
    });
    assert_eq!(PoolOptionsDef::from_partial(nothing_set()), expected);
    assert_eq!(PoolOptionsDef::from_partial(nothing_set()), PoolOptionsDef::default());
}

#[test]
fn table_values_are_taken() {
    let given = PartialPoolOptions {
        test_before_acquire: Some(false),
        acquire_timeout_secs: Some(10),
        min_connections: Some(1),
        max_connections: Some(20),
        max_lifetime_secs: Some(180),
        idle_timeout_secs: Some(600),
    };
    let options = PoolOptionsDef::from_partial(given);
    assert!(!options.test_before_acquire);
    assert_eq!(options.acquire_timeout, TimeSpan { secs: 10, nanos: 0 });
    assert_eq!(options.min_connections, 1);
    assert_eq!(options.max_connections, 20);
    assert_eq!(options.max_lifetime, TimeSpan { secs: 180, nanos: 0 });
    assert_eq!(options.idle_timeout, TimeSpan { secs: 600, nanos: 0 });
}

#[test]
fn partial_table_fills_in_the_rest() {
    let given = PartialPoolOptions {
        max_connections: Some(3),
        ..nothing_set()
    };
    let options = PoolOptionsDef::from_partial(given);
    let defaults = PoolOptionsDef::default();
    assert_eq!(options.max_connections, 3);
    assert_eq!(options.acquire_timeout, defaults.acquire_timeout);
    assert_eq!(options.test_before_acquire, defaults.test_before_acquire);
    assert_eq!(options.idle_timeout, defaults.idle_timeout);
}

#[test]
fn settings_without_lifetimes_take_defaults() {
    let settings = PoolSettings {
        test_before_acquire: false,
        acquire_timeout: TimeSpan { secs: 1, nanos: 500_000_000 },
        min_connections: 2,
        max_connections: 4,
        max_lifetime: None,
        idle_timeout: Some(TimeSpan { secs: 7, nanos: 0 }),
    };
    let options = PoolOptionsDef::from_settings(settings);
    assert!(!options.test_before_acquire);
    assert_eq!(options.acquire_timeout, TimeSpan { secs: 1, nanos: 500_000_000 });
    assert_eq!(options.min_connections, 2);
    assert_eq!(options.max_connections, 4);
    assert_eq!(options.max_lifetime, TimeSpan::from_secs(1800));
    assert_eq!(options.idle_timeout, TimeSpan::from_secs(7));
}

#[test]
fn options_survive_sqlx() {
    let options = PoolOptionsDef::from_partial(PartialPoolOptions {
        test_before_acquire: Some(false),
        acquire_timeout_secs: Some(12),
        ..nothing_set()
    });
    let sqlx = PgPoolOptions::new()
        .test_before_acquire(options.test_before_acquire)
        .acquire_timeout(Duration::new(options.acquire_timeout.secs, options.acquire_timeout.nanos))
        .min_connections(options.min_connections)
        .max_connections(options.max_connections)
        .max_lifetime(Duration::new(options.max_lifetime.secs, options.max_lifetime.nanos))
        .idle_timeout(Duration::new(options.idle_timeout.secs, options.idle_timeout.nanos));
    let back = PoolOptionsDef::from_settings(PoolSettings {
        test_before_acquire: sqlx.get_test_before_acquire(),
        acquire_timeout: span(sqlx.get_acquire_timeout()),
        min_connections: sqlx.get_min_connections(),
        max_connections: sqlx.get_max_connections(),
        max_lifetime: sqlx.get_max_lifetime().map(span),
        idle_timeout: sqlx.get_idle_timeout().map(span),
    });
    assert_eq!(back, options);
}
