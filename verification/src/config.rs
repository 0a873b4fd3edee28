//! The run configuration: target, credential lists, concurrency limit,
//! per-attempt timeout, optional attempt cap and sustained rate, with the
//! validation that gates every run and the dispatch-quota arithmetic.

use vstd::prelude::*;

verus! {

/// Immutable configuration of one run.
pub struct HydraConfig {
    /// Address the prober connects to.
    pub target_ip: String,
    /// Usernames, iterated in the order given (major axis).
    pub username_list: Vec<String>,
    /// Candidate passwords, iterated in the order given (minor axis).
    pub password_list: Vec<String>,
    /// Concurrency limit: how many probes may be in flight at once.
    pub threads: usize,
    /// Per-attempt timeout in milliseconds.
    pub timeout_ms: u64,
    /// Optional cap on the total number of attempts; absent means the
    /// whole cross product is dispatched.
    pub max_attempts: Option<usize>,
    /// Sustained attempt rate, in attempts per second.
    pub rate_per_sec: u64,
}

/// Why a configuration was rejected before the run started.
#[derive(Clone, Copy, Debug, PartialEq, Eq, Structural)]
pub enum ConfigError {
    /// The concurrency limit is zero.
    ZeroConcurrency,
    /// The per-attempt timeout is zero.
    ZeroTimeout,
    /// The sustained rate is zero.
    ZeroRate,
    /// The username list is empty.
    EmptyUsernameList,
    /// The password list is empty.
    EmptyPasswordList,
}

impl HydraConfig {
    /// Size of the credential cross product.
    pub open spec fn pair_total(&self) -> int {
        self.username_list@.len() * self.password_list@.len() as int
    }

    /// The configuration invariant: positive concurrency, timeout and
    /// rate, and at least one username and one password.
    pub open spec fn valid(&self) -> bool {
        &&& self.threads >= 1
        &&& self.timeout_ms >= 1
        &&& self.rate_per_sec >= 1
        &&& self.username_list@.len() >= 1
        &&& self.password_list@.len() >= 1
    }

    /// How many pairs a run may still dispatch when the attempts counter
    /// already stands at `prior_attempts`: the whole cross product, cut
    /// down by the cap when one is configured.
    pub open spec fn dispatch_quota(&self, prior_attempts: int) -> int {
        match self.max_attempts {
            None => self.pair_total(),
            Some(cap) => if prior_attempts >= cap {
                0
            } else if cap - prior_attempts < self.pair_total() {
                cap - prior_attempts
            } else {
                self.pair_total()
            },
        }
    }

    /// The violation `validate` reports for an invalid configuration,
    /// checking in a fixed order: concurrency, timeout, rate, usernames,
    /// passwords.
    pub open spec fn first_error(&self) -> ConfigError {
        if self.threads == 0 {
            ConfigError::ZeroConcurrency
        } else if self.timeout_ms == 0 {
            ConfigError::ZeroTimeout
        } else if self.rate_per_sec == 0 {
            ConfigError::ZeroRate
        } else if self.username_list@.len() == 0 {
            ConfigError::EmptyUsernameList
        } else {
            ConfigError::EmptyPasswordList
        }
    }

    /// Checks the configuration invariant, reporting the first violation
    /// in a fixed order: concurrency, timeout, rate, usernames, passwords.
    pub fn validate(&self) -> (r: Result<(), ConfigError>)
        ensures
            r matches Ok(()) <==> self.valid(),
            r matches Err(e) ==> e == self.first_error(),
            (r matches Err(e) && e == ConfigError::ZeroConcurrency) <==> self.threads == 0,
            (r matches Err(e) && e == ConfigError::ZeroTimeout)
                <==> (self.threads >= 1 && self.timeout_ms == 0),
            (r matches Err(e) && e == ConfigError::ZeroRate)
                <==> (self.threads >= 1 && self.timeout_ms >= 1 && self.rate_per_sec == 0),
            (r matches Err(e) && e == ConfigError::EmptyUsernameList)
                <==> (self.threads >= 1 && self.timeout_ms >= 1 && self.rate_per_sec >= 1
                    && self.username_list@.len() == 0),
            (r matches Err(e) && e == ConfigError::EmptyPasswordList)
                <==> (self.threads >= 1 && self.timeout_ms >= 1 && self.rate_per_sec >= 1
                    && self.username_list@.len() >= 1 && self.password_list@.len() == 0),
    {
        if self.threads == 0 {
            Err(ConfigError::ZeroConcurrency)
        } else if self.timeout_ms == 0 {
            Err(ConfigError::ZeroTimeout)
        } else if self.rate_per_sec == 0 {
            Err(ConfigError::ZeroRate)
        } else if self.username_list.len() == 0 {
            Err(ConfigError::EmptyUsernameList)
        } else if self.password_list.len() == 0 {
            Err(ConfigError::EmptyPasswordList)
        } else {
            Ok(())
        }
    }
}

/// With no cap configured, the dispatch quota is the whole cross product:
/// a run dispatches every pair exactly once.
pub proof fn lemma_quota_no_cap(c: &HydraConfig, prior_attempts: int)
    requires
        c.max_attempts is None,
    ensures
        c.dispatch_quota(prior_attempts) == c.pair_total(),
{
}

/// With a cap configured, a run never pushes the attempts counter past the
/// cap; and when the cross product is large enough, the counter lands on
/// the cap exactly.
pub proof fn lemma_quota_cap(c: &HydraConfig, prior_attempts: int, cap: int)
    requires
        c.max_attempts matches Some(m) && m == cap,
        0 <= prior_attempts <= cap,
    ensures
        prior_attempts + c.dispatch_quota(prior_attempts) <= cap,
        c.pair_total() >= cap - prior_attempts ==> prior_attempts + c.dispatch_quota(
            prior_attempts,
        ) == cap,
{
}

} // verus!
