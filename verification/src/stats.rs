//! The statistics collector: attempt and success counters for one run,
//! a fixed start timestamp, point-in-time snapshots, and the numeric
//! fields of a periodic progress report.

use vstd::prelude::*;

verus! {

/// How often the progress reporter renders a snapshot, in seconds.
pub const REPORT_INTERVAL_SECS: u64 = 5;

/// Mathematical model of the collector: both counters and the start
/// timestamp as unbounded integers.
pub ghost struct StatsView {
    pub attempts: int,
    pub successes: int,
    pub start_ms: int,
}

/// Aggregate counters for one run. Both counters only ever grow, and the
/// start timestamp is fixed when the collector is created; the fields are
/// private so every update goes through an increment method.
pub struct HydraStats {
    attempts: u64,
    successes: u64,
    start_ms: u64,
}

/// A momentary, self-consistent read of the collector: counter values and
/// the time elapsed since the run started.
#[derive(Clone, Copy, Debug, PartialEq, Eq, Structural)]
pub struct StatsSnapshot {
    pub attempts: u64,
    pub successes: u64,
    pub elapsed_ms: u64,
}

/// The numeric fields of one progress line: counters, throughput in
/// hundredths of an attempt per second, and whole elapsed seconds.
#[derive(Clone, Copy, Debug, PartialEq, Eq, Structural)]
pub struct ProgressReport {
    pub attempts: u64,
    pub successes: u64,
    pub rate_centi_per_sec: u128,
    pub elapsed_secs: u64,
}

impl View for HydraStats {
    type V = StatsView;

    closed spec fn view(&self) -> StatsView {
        StatsView {
            attempts: self.attempts as int,
            successes: self.successes as int,
            start_ms: self.start_ms as int,
        }
    }
}

impl HydraStats {
    /// Subset consistency: successes never outnumber attempts, and the
    /// counters fit the machine words they are kept in.
    pub open spec fn wf(&self) -> bool {
        &&& 0 <= self@.successes <= self@.attempts <= u64::MAX
        &&& 0 <= self@.start_ms <= u64::MAX
    }

    /// A fresh collector: zero counters, run started at `now_ms`.
    pub fn new(now_ms: u64) -> (s: Self)
        ensures
            s.wf(),
            s@.attempts == 0,
            s@.successes == 0,
            s@.start_ms == now_ms,
    {
        HydraStats { attempts: 0, successes: 0, start_ms: now_ms }
    }

    /// Counts one dispatched credential pair; nothing else changes.
    pub fn record_attempt(&mut self)
        requires
            old(self).wf(),
            old(self)@.attempts < u64::MAX,
        ensures
            final(self).wf(),
            final(self)@.attempts == old(self)@.attempts + 1,
            final(self)@.successes == old(self)@.successes,
            final(self)@.start_ms == old(self)@.start_ms,
    {
        self.attempts = self.attempts + 1;
    }

    /// Counts one successful attempt; callers record the attempt first, so
    /// successes stay strictly below the attempts already counted.
    pub fn record_success(&mut self)
        requires
            old(self).wf(),
            old(self)@.successes < old(self)@.attempts,
        ensures
            final(self).wf(),
            final(self)@.successes == old(self)@.successes + 1,
            final(self)@.attempts == old(self)@.attempts,
            final(self)@.start_ms == old(self)@.start_ms,
    {
        self.successes = self.successes + 1;
    }

    /// Current value of the attempts counter.
    pub fn total_attempts(&self) -> (r: u64)
        ensures
            r == self@.attempts,
    {
        self.attempts
    }

    /// Current value of the successes counter.
    pub fn total_successes(&self) -> (r: u64)
        ensures
            r == self@.successes,
    {
        self.successes
    }

    /// A snapshot taken at observation instant `now_ms`: the two counters,
    /// and elapsed time measured from the fixed start timestamp. Successes
    /// never exceed attempts in any snapshot.
    pub fn snapshot(&self, now_ms: u64) -> (snap: StatsSnapshot)
        requires
            self.wf(),
            self@.start_ms <= now_ms,
        ensures
            snap.attempts == self@.attempts,
            snap.successes == self@.successes,
            snap.elapsed_ms == now_ms - self@.start_ms,
            snap.successes <= snap.attempts,
    {
        StatsSnapshot {
            attempts: self.attempts,
            successes: self.successes,
            elapsed_ms: now_ms - self.start_ms,
        }
    }

    /// The fields of one progress line as observed at `now_ms`: throughput
    /// is attempts divided by whole elapsed seconds, kept in hundredths,
    /// and zero while the first second has not passed.
    pub fn progress_report(&self, now_ms: u64) -> (rep: ProgressReport)
        requires
            self.wf(),
            self@.start_ms <= now_ms,
        ensures
            rep.attempts == self@.attempts,
            rep.successes == self@.successes,
            rep.elapsed_secs == (now_ms - self@.start_ms) / 1000,
            rep.elapsed_secs == 0 ==> rep.rate_centi_per_sec == 0,
            rep.elapsed_secs > 0 ==> rep.rate_centi_per_sec == self@.attempts * 100 / rep.elapsed_secs as int,
    {
        let elapsed_ms: u64 = now_ms - self.start_ms;
        let elapsed_secs: u64 = elapsed_ms / 1000;
        let rate: u128 = if elapsed_secs == 0 {
            0
        } else {
            (self.attempts as u128) * 100 / (elapsed_secs as u128)
        };
        ProgressReport {
            attempts: self.attempts,
            successes: self.successes,
            rate_centi_per_sec: rate,
            elapsed_secs,
        }
    }
}

/// Elapsed time is non-decreasing across successive snapshots of the same
/// run: the start timestamp never changes, so a later observation instant
/// yields a larger-or-equal elapsed value.
pub proof fn lemma_elapsed_monotonic(v: StatsView, now1: int, now2: int)
    requires
        v.start_ms <= now1 <= now2,
    ensures
        now1 - v.start_ms <= now2 - v.start_ms,
{
}

} // verus!
