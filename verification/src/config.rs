//! Pool configuration: limits, timeouts and the retry policy.
//!
//! All durations and instants are milliseconds on a clock that the caller
//! supplies.

use vstd::prelude::*;

verus! {

/// Why a set of parameters is not a configuration.
#[derive(Clone, Copy, Debug, PartialEq, Eq, Structural)]
pub enum ConfigError {
    /// `max_size` is zero.
    ZeroMaxSize,
    /// `min_idle` is larger than `max_size`.
    MinIdleAboveMaxSize,
}

/// What to do after a failed attempt.
#[derive(Clone, Copy, Debug, PartialEq, Eq, Structural)]
pub enum Retry {
    /// Try again as attempt number `attempt`, after waiting `delay`.
    Again { attempt: u32, delay: u64 },
    /// The retry bound is reached.
    GiveUp,
}

/// The parameters of a pool. Fixed once the pool is built.
#[derive(Clone, Copy, Debug, PartialEq, Eq, Structural)]
pub struct Configuration {
    /// Connections opened eagerly when the pool starts.
    pub min_idle: u32,
    /// Upper bound on live connections; at least one.
    pub max_size: u32,
    /// How long an acquisition may wait.
    pub connection_timeout: u64,
    /// How long a connection may sit idle before it is discarded.
    pub idle_timeout: Option<u64>,
    /// How long a connection may live before it is discarded.
    pub max_lifetime: Option<u64>,
    /// How many times a failed attempt is repeated.
    pub max_retries: u32,
    /// The wait before the first retry; the wait grows linearly.
    pub retry_backoff: u64,
}

/// Whether `limit` has run out at `now` for something that began at `since`.
pub open spec fn elapsed(limit: Option<u64>, since: u64, now: u64) -> bool {
    match limit {
        Some(l) => now >= since && now - since >= l,
        None => false,
    }
}

/// Executable form of [`elapsed`].
pub fn has_elapsed(limit: Option<u64>, since: u64, now: u64) -> (r: bool)
    ensures
        r == elapsed(limit, since, now),
{
    match limit {
        Some(l) => now >= since && now - since >= l,
        None => false,
    }
}

impl Configuration {
    /// The invariant of a configuration.
    pub open spec fn wf(&self) -> bool {
        1 <= self.max_size && self.min_idle <= self.max_size
    }

    /// Executable form of [`Configuration::wf`].
    pub fn is_valid(&self) -> (r: bool)
        ensures
            r == self.wf(),
    {
        1 <= self.max_size && self.min_idle <= self.max_size
    }

    /// The wait before retry number `attempt + 1`: the backoff times the
    /// number of failures so far, capped at the largest `u64`.
    pub open spec fn delay_spec(&self, attempt: u32) -> u64 {
        if self.retry_backoff * (attempt + 1) > u64::MAX {
            u64::MAX
        } else {
            (self.retry_backoff * (attempt + 1)) as u64
        }
    }

    /// The decision after attempt number `attempt` (counted from zero) failed.
    pub open spec fn retry_spec(&self, attempt: u32) -> Retry {
        if attempt < self.max_retries {
            Retry::Again { attempt: (attempt + 1) as u32, delay: self.delay_spec(attempt) }
        } else {
            Retry::GiveUp
        }
    }

    /// Decides whether a failed attempt is repeated, and after what wait.
    pub fn retry(&self, attempt: u32) -> (r: Retry)
        ensures
            r == self.retry_spec(attempt),
    {
        if attempt < self.max_retries {
            let next: u32 = attempt + 1;
            let delay: u64 = match self.retry_backoff.checked_mul(next as u64) {
                Some(d) => d,
                None => u64::MAX,
            };
            Retry::Again { attempt: next, delay }
        } else {
            Retry::GiveUp
        }
    }

    /// The instant at which an acquisition begun at `now` times out.
    pub open spec fn deadline_spec(&self, now: u64) -> u64 {
        if now + self.connection_timeout > u64::MAX {
            u64::MAX
        } else {
            (now + self.connection_timeout) as u64
        }
    }

    /// Computes [`Configuration::deadline_spec`].
    pub fn deadline(&self, now: u64) -> (r: u64)
        ensures
            r == self.deadline_spec(now),
    {
        now.saturating_add(self.connection_timeout)
    }

    /// Whether a connection made at `created_at` has outlived `max_lifetime`.
    pub open spec fn expired(&self, created_at: u64, now: u64) -> bool {
        elapsed(self.max_lifetime, created_at, now)
    }

    /// Whether a connection idle since `idle_since` has outstayed
    /// `idle_timeout`.
    pub open spec fn idled_out(&self, idle_since: u64, now: u64) -> bool {
        elapsed(self.idle_timeout, idle_since, now)
    }
}

/// Collects the parameters of a pool, starting from defaults.
#[derive(Clone, Copy, Debug)]
pub struct Builder {
    pub config: Configuration,
}

impl Builder {
    /// The defaults: no eager connections, at most ten connections, thirty
    /// seconds to acquire, ten minutes idle, thirty minutes of life, no
    /// retries.
    pub open spec fn defaults() -> Configuration {
        Configuration {
            min_idle: 0,
            max_size: 10,
            connection_timeout: 30_000,
            idle_timeout: Some(600_000u64),
            max_lifetime: Some(1_800_000u64),
            max_retries: 0,
            retry_backoff: 0,
        }
    }

    /// A builder that holds the defaults.
    pub fn new() -> (b: Builder)
        ensures
            b.config == Self::defaults(),
    {
        Builder {
            config: Configuration {
                min_idle: 0,
                max_size: 10,
                connection_timeout: 30_000,
                idle_timeout: Some(600_000u64),
                max_lifetime: Some(1_800_000u64),
                max_retries: 0,
                retry_backoff: 0,
            },
        }
    }

    /// Sets the number of connections opened at startup.
    pub fn min_idle(self, min_idle: u32) -> (b: Builder)
        ensures
            b.config == (Configuration { min_idle, ..self.config }),
    {
        Builder { config: Configuration { min_idle, ..self.config } }
    }

    /// Sets the bound on live connections.
    pub fn max_size(self, max_size: u32) -> (b: Builder)
        ensures
            b.config == (Configuration { max_size, ..self.config }),
    {
        Builder { config: Configuration { max_size, ..self.config } }
    }

    /// Sets how long an acquisition may wait.
    pub fn connection_timeout(self, connection_timeout: u64) -> (b: Builder)
        ensures
            b.config == (Configuration { connection_timeout, ..self.config }),
    {
        Builder { config: Configuration { connection_timeout, ..self.config } }
    }

    /// Sets how long a connection may sit idle; `None` for no limit.
    pub fn idle_timeout(self, idle_timeout: Option<u64>) -> (b: Builder)
        ensures
            b.config == (Configuration { idle_timeout, ..self.config }),
    {
        Builder { config: Configuration { idle_timeout, ..self.config } }
    }

    /// Sets how long a connection may live; `None` for no limit.
    pub fn max_lifetime(self, max_lifetime: Option<u64>) -> (b: Builder)
        ensures
            b.config == (Configuration { max_lifetime, ..self.config }),
    {
        Builder { config: Configuration { max_lifetime, ..self.config } }
    }

    /// Sets the retry bound and the backoff.
    pub fn retry(self, max_retries: u32, retry_backoff: u64) -> (b: Builder)
        ensures
            b.config == (Configuration { max_retries, retry_backoff, ..self.config }),
    {
        Builder { config: Configuration { max_retries, retry_backoff, ..self.config } }
    }

    /// The error that `build` gives for `c`, if any.
    pub open spec fn check(c: Configuration) -> Option<ConfigError> {
        if c.max_size == 0 {
            Some(ConfigError::ZeroMaxSize)
        } else if c.min_idle > c.max_size {
            Some(ConfigError::MinIdleAboveMaxSize)
        } else {
            None
        }
    }

    /// Hands out the configuration, or says why the parameters are not one.
    pub fn build(self) -> (r: Result<Configuration, ConfigError>)
        ensures
            match r {
                Ok(c) => c == self.config && c.wf() && Self::check(self.config).is_none(),
                Err(e) => Self::check(self.config) == Some(e),
            },
    {
        if self.config.max_size == 0 {
            Err(ConfigError::ZeroMaxSize)
        } else if self.config.min_idle > self.config.max_size {
            Err(ConfigError::MinIdleAboveMaxSize)
        } else {
            Ok(self.config)
        }
    }
}

} // verus!
