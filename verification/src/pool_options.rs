//! Options of the Postgres connection pool as plain values: sqlx's defaults,
//! a partial `[postgres.options]` table filled in with them, and the readings
//! of sqlx's `PgPoolOptions` getters.
use vstd::prelude::*;

use sqlx::postgres::PgPoolOptions;
use std::time::Duration;

verus! {

/// A span of time: whole seconds and the nanoseconds past them.
#[derive(Debug, Clone, Copy, PartialEq, Eq, Structural)]
pub struct TimeSpan {
    pub secs: u64,
    pub nanos: u32,
}

impl TimeSpan {
    /// The nanoseconds are below one second.
    pub open spec fn wf(self) -> bool {
        self.nanos < 1_000_000_000
    }

    pub open spec fn of_secs(secs: u64) -> TimeSpan {
        TimeSpan { secs, nanos: 0 }
    }

    /// A span of whole seconds; the configuration file gives spans in seconds.
    pub fn from_secs(secs: u64) -> (r: TimeSpan)
        ensures
            r == TimeSpan::of_secs(secs),
            r.secs == secs,
            r.nanos == 0,
            r.wf(),
    {
        TimeSpan { secs, nanos: 0 }
    }
}

/// What sqlx's `PgPoolOptions` getters report.
#[derive(Debug, Clone, Copy, PartialEq, Eq, Structural)]
pub struct PoolSettings {
    pub test_before_acquire: bool,
    pub acquire_timeout: TimeSpan,
    pub min_connections: u32,
    pub max_connections: u32,
    pub max_lifetime: Option<TimeSpan>,
    pub idle_timeout: Option<TimeSpan>,
}

/// Options of the Postgres connection pool.
#[derive(Debug, Clone, Copy, PartialEq, Eq, Structural)]
pub struct PoolOptionsDef {
    pub test_before_acquire: bool,
    pub acquire_timeout: TimeSpan,
    pub min_connections: u32,
    pub max_connections: u32,
    pub max_lifetime: TimeSpan,
    pub idle_timeout: TimeSpan,
}

/// Pool options as the configuration file gives them: each may be missing,
/// spans are in seconds.
#[derive(Debug, Clone, Copy, PartialEq, Eq, Structural)]
pub struct PartialPoolOptions {
    pub test_before_acquire: Option<bool>,
    pub acquire_timeout_secs: Option<u64>,
    pub min_connections: Option<u32>,
    pub max_connections: Option<u32>,
    pub max_lifetime_secs: Option<u64>,
    pub idle_timeout_secs: Option<u64>,
}

/// `PgPoolOptions::new()` followed by its getters.
///
/// Claims the values that sqlx 0.7's `PoolOptions::new` sets: test before
/// acquire, 30 s acquire timeout, 0 to 10 connections, 30 min lifetime and
/// 10 min idle timeout.
#[verifier::external_body]
fn sqlx_default_settings() -> (r: PoolSettings)
    ensures
        r == PoolOptionsDef::sqlx_defaults(),
{
    let span = |d: Duration| TimeSpan { secs: d.as_secs(), nanos: d.subsec_nanos() };
    let o = PgPoolOptions::new();
    PoolSettings {
        test_before_acquire: o.get_test_before_acquire(),
        acquire_timeout: span(o.get_acquire_timeout()),
        min_connections: o.get_min_connections(),
        max_connections: o.get_max_connections(),
        max_lifetime: o.get_max_lifetime().map(span),
        idle_timeout: o.get_idle_timeout().map(span),
    }
}

impl PoolOptionsDef {
    pub open spec fn wf(self) -> bool {
        &&& self.acquire_timeout.wf()
        &&& self.max_lifetime.wf()
        &&& self.idle_timeout.wf()
    }

    /// What the getters report on options holding these values.
    pub open spec fn settings(self) -> PoolSettings {
        PoolSettings {
            test_before_acquire: self.test_before_acquire,
            acquire_timeout: self.acquire_timeout,
            min_connections: self.min_connections,
            max_connections: self.max_connections,
            max_lifetime: Some(self.max_lifetime),
            idle_timeout: Some(self.idle_timeout),
        }
    }

    /// sqlx's defaults for a new pool.
    pub open spec fn sqlx_defaults() -> PoolSettings {
        PoolSettings {
            test_before_acquire: true,
            acquire_timeout: TimeSpan::of_secs(30),
            min_connections: 0,
            max_connections: 10,
            max_lifetime: Some(TimeSpan::of_secs(1800)),
            idle_timeout: Some(TimeSpan::of_secs(600)),
        }
    }

    /// The default options: sqlx's defaults.
    pub open spec fn default_spec() -> PoolOptionsDef {
        PoolOptionsDef {
            test_before_acquire: true,
            acquire_timeout: TimeSpan::of_secs(30),
            min_connections: 0,
            max_connections: 10,
            max_lifetime: TimeSpan::of_secs(1800),
            idle_timeout: TimeSpan::of_secs(600),
        }
    }

    /// Options from getter readings; a missing lifetime or idle timeout
    /// takes its default.
    pub open spec fn from_settings_spec(s: PoolSettings) -> PoolOptionsDef {
        PoolOptionsDef {
            test_before_acquire: s.test_before_acquire,
            acquire_timeout: s.acquire_timeout,
            min_connections: s.min_connections,
            max_connections: s.max_connections,
            max_lifetime: match s.max_lifetime {
                Some(t) => t,
                None => Self::default_spec().max_lifetime,
            },
            idle_timeout: match s.idle_timeout {
                Some(t) => t,
                None => Self::default_spec().idle_timeout,
            },
        }
    }

    /// Options from the configuration file; each missing option takes its
    /// default.
    pub open spec fn from_partial_spec(p: PartialPoolOptions) -> PoolOptionsDef {
        let d = Self::default_spec();
        PoolOptionsDef {
            test_before_acquire: match p.test_before_acquire {
                Some(b) => b,
                None => d.test_before_acquire,
            },
            acquire_timeout: match p.acquire_timeout_secs {
                Some(s) => TimeSpan::of_secs(s),
                None => d.acquire_timeout,
            },
            min_connections: match p.min_connections {
                Some(n) => n,
                None => d.min_connections,
            },
            max_connections: match p.max_connections {
                Some(n) => n,
                None => d.max_connections,
            },
            max_lifetime: match p.max_lifetime_secs {
                Some(s) => TimeSpan::of_secs(s),
                None => d.max_lifetime,
            },
            idle_timeout: match p.idle_timeout_secs {
                Some(s) => TimeSpan::of_secs(s),
                None => d.idle_timeout,
            },
        }
    }

    /// The pool options that a missing `[postgres.options]` table, or a
    /// missing option in it, stands for: sqlx's defaults.
    pub fn default_pooloptions() -> (r: PoolOptionsDef)
        ensures
            r == Self::default_spec(),
            r.test_before_acquire,
            r.acquire_timeout == (TimeSpan { secs: 30, nanos: 0 }),
            r.min_connections == 0,
            r.max_connections == 10,
            r.max_lifetime == (TimeSpan { secs: 1800, nanos: 0 }),
            r.idle_timeout == (TimeSpan { secs: 600, nanos: 0 }),
            r.wf(),
    {
        Self::default()
    }

    /// Options from getter readings; see `from_settings_spec`.
    pub fn from_settings(s: PoolSettings) -> (r: PoolOptionsDef)
        ensures
            r == Self::from_settings_spec(s),
            r.test_before_acquire == s.test_before_acquire,
            r.acquire_timeout == s.acquire_timeout,
            r.min_connections == s.min_connections,
            r.max_connections == s.max_connections,
            s.max_lifetime matches Some(t) ==> r.max_lifetime == t,
            s.max_lifetime is None ==> r.max_lifetime == (TimeSpan { secs: 1800, nanos: 0 }),
            s.idle_timeout matches Some(t) ==> r.idle_timeout == t,
            s.idle_timeout is None ==> r.idle_timeout == (TimeSpan { secs: 600, nanos: 0 }),
            (s.acquire_timeout.wf() && (s.max_lifetime matches Some(t) ==> t.wf())
                && (s.idle_timeout matches Some(t) ==> t.wf())) ==> r.wf(),
    {
        let defaults = Self::default();
        PoolOptionsDef {
            test_before_acquire: s.test_before_acquire,
            acquire_timeout: s.acquire_timeout,
            min_connections: s.min_connections,
            max_connections: s.max_connections,
            max_lifetime: match s.max_lifetime {
                Some(t) => t,
                None => defaults.max_lifetime,
            },
            idle_timeout: match s.idle_timeout {
                Some(t) => t,
                None => defaults.idle_timeout,
            },
        }
    }

    /// Options from the configuration file; see `from_partial_spec`.
    pub fn from_partial(p: PartialPoolOptions) -> (r: PoolOptionsDef)
        ensures
            r == Self::from_partial_spec(p),
            p.test_before_acquire matches Some(b) ==> r.test_before_acquire == b,
            p.test_before_acquire is None ==> r.test_before_acquire,
            p.acquire_timeout_secs matches Some(secs)
                ==> r.acquire_timeout == (TimeSpan { secs: secs, nanos: 0 }),
            p.acquire_timeout_secs is None ==> r.acquire_timeout == (TimeSpan { secs: 30, nanos: 0 }),
            p.min_connections matches Some(n) ==> r.min_connections == n,
            p.min_connections is None ==> r.min_connections == 0,
            p.max_connections matches Some(n) ==> r.max_connections == n,
            p.max_connections is None ==> r.max_connections == 10,
            p.max_lifetime_secs matches Some(secs)
                ==> r.max_lifetime == (TimeSpan { secs: secs, nanos: 0 }),
            p.max_lifetime_secs is None ==> r.max_lifetime == (TimeSpan { secs: 1800, nanos: 0 }),
            p.idle_timeout_secs matches Some(secs)
                ==> r.idle_timeout == (TimeSpan { secs: secs, nanos: 0 }),
            p.idle_timeout_secs is None ==> r.idle_timeout == (TimeSpan { secs: 600, nanos: 0 }),
            r.wf(),
    {
        let d = Self::default();
        PoolOptionsDef {
            test_before_acquire: match p.test_before_acquire {
                Some(b) => b,
                None => d.test_before_acquire,
            },
            acquire_timeout: match p.acquire_timeout_secs {
                Some(s) => TimeSpan::from_secs(s),
                None => d.acquire_timeout,
            },
            min_connections: match p.min_connections {
                Some(n) => n,
                None => d.min_connections,
            },
            max_connections: match p.max_connections {
                Some(n) => n,
                None => d.max_connections,
            },
            max_lifetime: match p.max_lifetime_secs {
                Some(s) => TimeSpan::from_secs(s),
                None => d.max_lifetime,
            },
            idle_timeout: match p.idle_timeout_secs {
                Some(s) => TimeSpan::from_secs(s),
                None => d.idle_timeout,
            },
        }
    }
}

impl Default for PoolOptionsDef {
    /// sqlx's defaults for a new pool.
    fn default() -> (r: PoolOptionsDef)
        ensures
            r == PoolOptionsDef::default_spec(),
            r.test_before_acquire,
            r.acquire_timeout == (TimeSpan { secs: 30, nanos: 0 }),
            r.min_connections == 0,
            r.max_connections == 10,
            r.max_lifetime == (TimeSpan { secs: 1800, nanos: 0 }),
            r.idle_timeout == (TimeSpan { secs: 600, nanos: 0 }),
            r.wf(),
    {
        let s = sqlx_default_settings();
        let max_lifetime = match s.max_lifetime {
            Some(t) => t,
            None => TimeSpan::from_secs(30 * 60),
        };
        let idle_timeout = match s.idle_timeout {
            Some(t) => t,
            None => TimeSpan::from_secs(10 * 60),
        };
        PoolOptionsDef {
            test_before_acquire: s.test_before_acquire,
            acquire_timeout: s.acquire_timeout,
            min_connections: s.min_connections,
            max_connections: s.max_connections,
            max_lifetime,
            idle_timeout,
        }
    }
}

/// Options read back through the getters of options that hold them are
/// the same options.
pub proof fn lemma_settings_round_trip(d: PoolOptionsDef)
    ensures
        PoolOptionsDef::from_settings_spec(d.settings()) == d,
{
}

/// A `[postgres.options]` table that sets nothing gives sqlx's defaults.
pub proof fn lemma_empty_table_gives_defaults(p: PartialPoolOptions)
    requires
        p.test_before_acquire is None,
        p.acquire_timeout_secs is None,
        p.min_connections is None,
        p.max_connections is None,
        p.max_lifetime_secs is None,
        p.idle_timeout_secs is None,
    ensures
        PoolOptionsDef::from_partial_spec(p) == PoolOptionsDef::default_spec(),
{
}

/// Each option that the table sets is taken as given (spans in whole
/// seconds); the defaults fill in only what is missing.
pub proof fn lemma_table_values_win(p: PartialPoolOptions)
    ensures
        p.test_before_acquire matches Some(b)
            ==> PoolOptionsDef::from_partial_spec(p).test_before_acquire == b,
        p.acquire_timeout_secs matches Some(s)
            ==> PoolOptionsDef::from_partial_spec(p).acquire_timeout == (TimeSpan { secs: s, nanos: 0 }),
        p.min_connections matches Some(n)
            ==> PoolOptionsDef::from_partial_spec(p).min_connections == n,
        p.max_connections matches Some(n)
            ==> PoolOptionsDef::from_partial_spec(p).max_connections == n,
        p.max_lifetime_secs matches Some(s)
            ==> PoolOptionsDef::from_partial_spec(p).max_lifetime == (TimeSpan { secs: s, nanos: 0 }),
        p.idle_timeout_secs matches Some(s)
            ==> PoolOptionsDef::from_partial_spec(p).idle_timeout == (TimeSpan { secs: s, nanos: 0 }),
{
}

/// A span of `s` whole seconds holds exactly `s` seconds and no nanoseconds.
pub proof fn lemma_span_of_secs_is_exact(s: u64)
    ensures
        TimeSpan::of_secs(s).secs == s,
        TimeSpan::of_secs(s).nanos == 0,
        TimeSpan::of_secs(s).wf(),
{
}

/// The default options are sqlx's: test before acquire, a 30 s acquire
/// timeout, 0 to 10 connections, a 30 min lifetime and a 10 min idle timeout.
pub proof fn lemma_defaults_are_sqlx_defaults()
    ensures
        PoolOptionsDef::default_spec().test_before_acquire,
        PoolOptionsDef::default_spec().acquire_timeout == (TimeSpan { secs: 30, nanos: 0 }),
        PoolOptionsDef::default_spec().min_connections == 0,
        PoolOptionsDef::default_spec().max_connections == 10,
        PoolOptionsDef::default_spec().max_lifetime == (TimeSpan { secs: 1800, nanos: 0 }),
        PoolOptionsDef::default_spec().idle_timeout == (TimeSpan { secs: 600, nanos: 0 }),
{
}

/// Each option the table leaves out takes sqlx's default, whatever the table
/// sets for the other options.
pub proof fn lemma_missing_options_take_defaults(p: PartialPoolOptions)
    ensures
        p.test_before_acquire is None ==> PoolOptionsDef::from_partial_spec(p).test_before_acquire,
        p.acquire_timeout_secs is None ==> PoolOptionsDef::from_partial_spec(p).acquire_timeout
            == (TimeSpan { secs: 30, nanos: 0 }),
        p.min_connections is None ==> PoolOptionsDef::from_partial_spec(p).min_connections == 0,
        p.max_connections is None ==> PoolOptionsDef::from_partial_spec(p).max_connections == 10,
        p.max_lifetime_secs is None ==> PoolOptionsDef::from_partial_spec(p).max_lifetime
            == (TimeSpan { secs: 1800, nanos: 0 }),
        p.idle_timeout_secs is None ==> PoolOptionsDef::from_partial_spec(p).idle_timeout
            == (TimeSpan { secs: 600, nanos: 0 }),
{
}

/// Getter readings are taken as they are; a missing max lifetime becomes
/// sqlx's default of 30 min and a missing idle timeout sqlx's default of
/// 10 min, each whatever the other readings are.
pub proof fn lemma_settings_taken_missing_lifetimes_defaulted(s: PoolSettings)
    ensures
        PoolOptionsDef::from_settings_spec(s).test_before_acquire == s.test_before_acquire,
        PoolOptionsDef::from_settings_spec(s).acquire_timeout == s.acquire_timeout,
        PoolOptionsDef::from_settings_spec(s).min_connections == s.min_connections,
        PoolOptionsDef::from_settings_spec(s).max_connections == s.max_connections,
        s.max_lifetime matches Some(t) ==> PoolOptionsDef::from_settings_spec(s).max_lifetime == t,
        s.max_lifetime is None ==> PoolOptionsDef::from_settings_spec(s).max_lifetime
            == (TimeSpan { secs: 1800, nanos: 0 }),
        s.idle_timeout matches Some(t) ==> PoolOptionsDef::from_settings_spec(s).idle_timeout == t,
        s.idle_timeout is None ==> PoolOptionsDef::from_settings_spec(s).idle_timeout
            == (TimeSpan { secs: 600, nanos: 0 }),
{
}

} // verus!
