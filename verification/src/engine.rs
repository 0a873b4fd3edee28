//! The attack engine: walks the credential cross product in the fixed
//! username-major, password-minor order, stops at the configured attempt
//! cap, invokes the abstract prober once per pair, classifies each reply
//! exactly once and feeds the statistics collector. The pieces a
//! concurrent runtime needs to drive the same walk under a concurrency
//! bound — the pair cursor that fixes the dispatch order and the
//! dispatcher that bounds in-flight probes — live here as well.

use vstd::prelude::*;
use vstd::arithmetic::mul::lemma_mul_is_distributive_add;
use vstd::arithmetic::mul::lemma_mul_inequality;
use vstd::arithmetic::div_mod::lemma_fundamental_div_mod_converse;
use crate::config::ConfigError;
use crate::config::HydraConfig;
use crate::outcome::AttemptOutcome;
use crate::outcome::ProbeReply;
use crate::outcome::SuccessRecord;
use crate::outcome::classify;
use crate::outcome::lemma_successes_of_len;
use crate::outcome::outcome_pass;
use crate::outcome::outcome_user;
use crate::outcome::successes_of;
use crate::stats::HydraStats;

verus! {

/// The probing capability the engine consumes: one connection attempt for
/// one credential pair against the target, answered within the given
/// timeout or not at all. The protocol behind it is supplied by the
/// caller, so nothing is promised about which reply comes back.
pub trait Prober {
    /// Tests one credential pair against the target, reporting `NoReply`
    /// when the per-attempt timeout elapsed first.
    fn probe(&mut self, target: &str, username: &str, password: &str, timeout_ms: u64)
        -> ProbeReply;
}

/// Everything one run produced: an outcome per dispatched pair, in
/// dispatch order, and a record per found credential, in the order found.
pub struct RunReport {
    pub outcomes: Vec<AttemptOutcome>,
    pub found: Vec<SuccessRecord>,
}

/// Whether the configured attempt cap stops any further dispatch at the
/// counter value the collector currently shows.
pub fn cap_reached(config: &HydraConfig, stats: &HydraStats) -> (r: bool)
    ensures
        r == (match config.max_attempts {
            Some(cap) => stats@.attempts >= cap,
            None => false,
        }),
{
    match config.max_attempts {
        Some(cap) => stats.total_attempts() >= cap as u64,
        None => false,
    }
}

/// Mathematical model of a pair cursor.
pub ghost struct CursorView {
    pub n: int,
    pub m: int,
    pub ui: int,
    pub pi: int,
}

/// The dispatch order of a run, as a cursor a concurrent driver can pull
/// from: pairs come out username-major, password-minor, each exactly
/// once. Completion order may differ under concurrency; dispatch order
/// may not.
pub struct PairCursor {
    n: usize,
    m: usize,
    ui: usize,
    pi: usize,
}

impl View for PairCursor {
    type V = CursorView;

    closed spec fn view(&self) -> CursorView {
        CursorView { n: self.n as int, m: self.m as int, ui: self.ui as int, pi: self.pi as int }
    }
}

impl PairCursor {
    /// The cursor invariant: the position lies on the cross product, with
    /// the one-past-the-end position written (n, 0).
    pub open spec fn wf(&self) -> bool {
        &&& 1 <= self@.n
        &&& 1 <= self@.m
        &&& 0 <= self@.ui <= self@.n
        &&& 0 <= self@.pi < self@.m
        &&& (self@.ui == self@.n ==> self@.pi == 0)
    }

    /// How many pairs have been handed out.
    pub open spec fn index(&self) -> int {
        self@.ui * self@.m + self@.pi
    }

    /// Size of the cross product the cursor walks.
    pub open spec fn total(&self) -> int {
        self@.n * self@.m
    }

    /// A cursor over `n` usernames and `m` passwords, at the first pair.
    pub fn new(n: usize, m: usize) -> (c: Self)
        requires
            n >= 1,
            m >= 1,
        ensures
            c.wf(),
            c@.n == n,
            c@.m == m,
            c.index() == 0,
    {
        PairCursor { n, m, ui: 0, pi: 0 }
    }

    /// Hands out the next pair of (username index, password index), or
    /// `None` once every pair has been handed out.
    pub fn next(&mut self) -> (r: Option<(usize, usize)>)
        requires
            old(self).wf(),
        ensures
            final(self).wf(),
            final(self)@.n == old(self)@.n,
            final(self)@.m == old(self)@.m,
            old(self).index() < old(self).total() ==> (r matches Some(p) && p.0 == old(self)@.ui
                && p.1 == old(self)@.pi && final(self).index() == old(self).index() + 1),
            old(self).index() >= old(self).total() ==> (r is None && final(self)@ == old(self)@),
    {
        proof {
            lemma_mul_is_distributive_add(self@.m, self@.ui, 1);
            if self@.ui < self@.n {
                lemma_mul_inequality(self@.ui + 1, self@.n, self@.m);
            } else {
                assert(self.index() == self.total());
            }
        }
        if self.ui >= self.n {
            None
        } else {
            let u = self.ui;
            let p = self.pi;
            if self.pi + 1 < self.m {
                self.pi = self.pi + 1;
            } else {
                self.pi = 0;
                self.ui = self.ui + 1;
            }
            Some((u, p))
        }
    }
}

/// Mathematical model of a dispatcher.
pub ghost struct DispatcherView {
    pub limit: int,
    pub in_flight: int,
}

/// The concurrency bound of a run: a driver marks every probe it launches
/// and every probe that resolves, and may only launch while fewer than
/// `limit` probes are unresolved.
pub struct Dispatcher {
    limit: usize,
    in_flight: usize,
}

impl View for Dispatcher {
    type V = DispatcherView;

    closed spec fn view(&self) -> DispatcherView {
        DispatcherView { limit: self.limit as int, in_flight: self.in_flight as int }
    }
}

impl Dispatcher {
    /// The concurrency invariant: never more unresolved probes than the
    /// configured limit.
    pub open spec fn wf(&self) -> bool {
        &&& 1 <= self@.limit
        &&& 0 <= self@.in_flight <= self@.limit
    }

    /// A dispatcher for the given concurrency limit, with nothing in
    /// flight yet.
    pub fn new(limit: usize) -> (d: Self)
        requires
            limit >= 1,
        ensures
            d.wf(),
            d@.limit == limit,
            d@.in_flight == 0,
    {
        Dispatcher { limit, in_flight: 0 }
    }

    /// Whether another probe may be launched right now.
    pub fn can_launch(&self) -> (r: bool)
        ensures
            r == (self@.in_flight < self@.limit),
    {
        self.in_flight < self.limit
    }

    /// Marks one probe launched.
    pub fn launch(&mut self)
        requires
            old(self).wf(),
            old(self)@.in_flight < old(self)@.limit,
        ensures
            final(self).wf(),
            final(self)@.limit == old(self)@.limit,
            final(self)@.in_flight == old(self)@.in_flight + 1,
    {
        self.in_flight = self.in_flight + 1;
    }

    /// Marks one in-flight probe resolved.
    pub fn complete(&mut self)
        requires
            old(self).wf(),
            old(self)@.in_flight >= 1,
        ensures
            final(self).wf(),
            final(self)@.limit == old(self)@.limit,
            final(self)@.in_flight == old(self)@.in_flight - 1,
    {
        self.in_flight = self.in_flight - 1;
    }
}

/// The concurrency-bound law: a well-formed dispatcher never has more
/// probes in flight than its limit, so a driver that routes every launch
/// and every completion through it never exceeds the configured
/// concurrency.
pub proof fn lemma_concurrency_bound(d: &Dispatcher)
    requires
        d.wf(),
    ensures
        d@.in_flight <= d@.limit,
{
}

/// Runs one attack: validates the configuration, then walks the cross
/// product username-major and password-minor, probing each pair once,
/// counting every dispatched pair exactly once, counting a success for
/// exactly the accepted pairs, and stopping early once the attempts
/// counter reaches the configured cap.
pub fn run_attack<P: Prober>(config: &HydraConfig, stats: &mut HydraStats, prober: &mut P) -> (r:
    Result<RunReport, ConfigError>)
    requires
        old(stats).wf(),
        old(stats)@.attempts + config.pair_total() <= u64::MAX,
    ensures
        (r matches Ok(rep)) <==> config.valid(),
        !config.valid() ==> (r matches Err(e) && e == config.first_error() && final(stats)@ == old(
            stats,
        )@),
        r matches Ok(rep) ==> ({
            let m = config.password_list@.len() as int;
            let quota = config.dispatch_quota(old(stats)@.attempts);
            &&& rep.outcomes@.len() == quota
            &&& final(stats)@.attempts == old(stats)@.attempts + quota
            &&& final(stats)@.successes == old(stats)@.successes + successes_of(
                rep.outcomes@,
            ).len()
            &&& final(stats)@.start_ms == old(stats)@.start_ms
            &&& final(stats).wf()
            &&& forall|i: int|
                0 <= i < quota ==> (outcome_user(#[trigger] rep.outcomes@[i])
                    == config.username_list@[i / m]@ && outcome_pass(rep.outcomes@[i])
                    == config.password_list@[i % m]@)
            &&& rep.found@.len() == successes_of(rep.outcomes@).len()
            &&& forall|j: int|
                0 <= j < rep.found@.len() ==> ((#[trigger] rep.found@[j]).username@
                    == outcome_user(successes_of(rep.outcomes@)[j]) && rep.found@[j].password@
                    == outcome_pass(successes_of(rep.outcomes@)[j]) && rep.found@[j].target@
                    == config.target_ip@)
        }),
{
    if let Err(e) = config.validate() {
        return Err(e);
    }
    let ghost a0 = stats@.attempts;
    let ghost s0 = stats@.successes;
    let ghost t0 = stats@.start_ms;
    let n: usize = config.username_list.len();
    let m: usize = config.password_list.len();
    let mut outcomes: Vec<AttemptOutcome> = Vec::new();
    let mut found: Vec<SuccessRecord> = Vec::new();
    let mut ui: usize = 0;
    let mut pi: usize = 0;
    loop
        invariant
            n == config.username_list@.len(),
            m == config.password_list@.len(),
            1 <= m,
            1 <= n,
            config.pair_total() == (n as int) * (m as int),
            a0 + (n as int) * (m as int) <= u64::MAX,
            0 <= s0 <= a0,
            ui <= n,
            pi < m,
            ui == n ==> pi == 0,
            outcomes@.len() == (ui as int) * (m as int) + pi,
            outcomes@.len() <= config.dispatch_quota(a0),
            stats@.attempts == a0 + outcomes@.len(),
            stats@.successes == s0 + successes_of(outcomes@).len(),
            stats@.start_ms == t0,
            stats.wf(),
            found@.len() == successes_of(outcomes@).len(),
            forall|i: int|
                0 <= i < outcomes@.len() ==> (outcome_user(#[trigger] outcomes@[i])
                    == config.username_list@[i / (m as int)]@ && outcome_pass(outcomes@[i])
                    == config.password_list@[i % (m as int)]@),
            forall|j: int|
                0 <= j < found@.len() ==> ((#[trigger] found@[j]).username@ == outcome_user(
                    successes_of(outcomes@)[j],
                ) && found@[j].password@ == outcome_pass(successes_of(outcomes@)[j])
                    && found@[j].target@ == config.target_ip@),
        ensures
            ui <= n,
            pi < m,
            outcomes@.len() == (ui as int) * (m as int) + pi,
            outcomes@.len() <= config.dispatch_quota(a0),
            stats@.attempts == a0 + outcomes@.len(),
            stats@.successes == s0 + successes_of(outcomes@).len(),
            stats@.start_ms == t0,
            stats.wf(),
            found@.len() == successes_of(outcomes@).len(),
            ui == n ==> pi == 0,
            ui == n || (config.max_attempts matches Some(cap) && a0 + outcomes@.len() >= cap),
            forall|i: int|
                0 <= i < outcomes@.len() ==> (outcome_user(#[trigger] outcomes@[i])
                    == config.username_list@[i / (m as int)]@ && outcome_pass(outcomes@[i])
                    == config.password_list@[i % (m as int)]@),
            forall|j: int|
                0 <= j < found@.len() ==> ((#[trigger] found@[j]).username@ == outcome_user(
                    successes_of(outcomes@)[j],
                ) && found@[j].password@ == outcome_pass(successes_of(outcomes@)[j])
                    && found@[j].target@ == config.target_ip@),
        decreases n - ui, m - pi,
    {
        if ui >= n {
            break ;
        }
        if cap_reached(config, stats) {
            break ;
        }
        proof {
            // The walk has not covered the cross product yet:
            // ui*m + pi < (ui+1)*m <= n*m.
            lemma_mul_is_distributive_add(m as int, ui as int, 1);
            lemma_mul_inequality(ui as int + 1, n as int, m as int);
        }
        let user: String = config.username_list[ui].clone();
        let pass: String = config.password_list[pi].clone();
        let reply = prober.probe(
            config.target_ip.as_str(),
            user.as_str(),
            pass.as_str(),
            config.timeout_ms,
        );
        stats.record_attempt();
        let outcome = classify(user.clone(), pass.clone(), reply);
        let ghost pre_out = outcomes@;
        if outcome.is_success() {
            proof {
                lemma_successes_of_len(pre_out);
            }
            stats.record_success();
            found.push(
                SuccessRecord { username: user, password: pass, target: config.target_ip.clone() },
            );
        }
        outcomes.push(outcome);
        proof {
            assert(outcomes@.drop_last() =~= pre_out);
            // The pair index decomposes uniquely: position ui*m + pi holds
            // username ui and password pi.
            lemma_fundamental_div_mod_converse(
                (ui as int) * (m as int) + pi,
                m as int,
                ui as int,
                pi as int,
            );
        }
        if pi + 1 < m {
            pi = pi + 1;
        } else {
            proof {
                lemma_mul_is_distributive_add(m as int, ui as int, 1);
            }
            pi = 0;
            ui = ui + 1;
        }
    }
    proof {
        // At exit the dispatched count equals the quota: either the whole
        // cross product was walked, or the cap cut the walk short.
        let d = outcomes@.len() as int;
        let quota = config.dispatch_quota(a0);
        if ui == n {
            assert(d == (n as int) * (m as int));
        }
        assert(d == quota);
    }
    Ok(RunReport { outcomes, found })
}

} // verus!
