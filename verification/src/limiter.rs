//! The rate limiter: a token bucket shared by all workers. The bucket
//! refills continuously at the configured rate and never holds more than
//! its capacity, so sustained throughput is bounded by the rate and any
//! burst is bounded by the capacity. The bucket itself never sleeps: when
//! no token is available it tells the caller how long to wait, and the
//! surrounding runtime performs the wait.

use vstd::prelude::*;
use vstd::arithmetic::mul::lemma_mul_is_distributive_add;
use vstd::arithmetic::mul::lemma_mul_upper_bound;
use vstd::arithmetic::mul::lemma_mul_is_distributive_sub;
use vstd::arithmetic::div_mod::lemma_fundamental_div_mod;
use vstd::arithmetic::div_mod::lemma_div_pos_is_pos;
use vstd::arithmetic::div_mod::lemma_div_nonincreasing;
use vstd::arithmetic::div_mod::lemma_mod_bound;
use vstd::arithmetic::div_mod::lemma_div_is_ordered;
use vstd::arithmetic::div_mod::lemma_div_multiples_vanish;

verus! {

/// Largest admissible bucket capacity: capacity is kept in thousandths of
/// a token in a 64-bit word, so it must not exceed u64::MAX / 1000.
pub const MAX_BUCKET_CAPACITY: u64 = 18_446_744_073_709_551;

/// Mathematical model of the bucket, with the running count of permits it
/// has granted since creation.
pub ghost struct BucketView {
    pub capacity: int,
    pub rate: int,
    pub milli_tokens: int,
    pub last_ms: int,
    pub created_ms: int,
    pub granted: int,
}

/// A token bucket: `capacity` tokens at most, refilled at `rate` tokens
/// per second (equivalently, `rate` milli-tokens per millisecond). Each
/// admitted attempt consumes one token (1000 milli-tokens).
pub struct TokenBucket {
    capacity: u64,
    rate: u64,
    milli_tokens: u64,
    last_ms: u64,
    created_ms: u64,
    granted: Ghost<nat>,
}

/// Answer of one admission request: either a token was consumed and the
/// caller may dispatch, or it should retry after the given wait.
#[derive(Clone, Copy, Debug, PartialEq, Eq, Structural)]
pub enum Admission {
    /// A token was consumed; the attempt may be dispatched now.
    Granted,
    /// No token is available yet; retry after this many milliseconds.
    RetryAfterMs(u64),
}

impl View for TokenBucket {
    type V = BucketView;

    closed spec fn view(&self) -> BucketView {
        BucketView {
            capacity: self.capacity as int,
            rate: self.rate as int,
            milli_tokens: self.milli_tokens as int,
            last_ms: self.last_ms as int,
            created_ms: self.created_ms as int,
            granted: self.granted@ as int,
        }
    }
}

/// The fill the bucket reaches at instant `now`: the stored milli-tokens
/// plus continuous refill since the last update, clamped at capacity.
pub open spec fn refilled_milli(v: BucketView, now: int) -> int {
    let unclamped = v.milli_tokens + v.rate * (now - v.last_ms);
    if unclamped > v.capacity * 1000 {
        v.capacity * 1000
    } else {
        unclamped
    }
}

impl TokenBucket {
    /// The bucket invariant. Its heart is the admission bound: everything
    /// granted so far, plus what is still in the bucket, never exceeds the
    /// initial capacity plus the refill budget `rate * elapsed_ms / 1000`.
    pub open spec fn wf(&self) -> bool {
        &&& 1 <= self@.capacity <= MAX_BUCKET_CAPACITY
        &&& 1 <= self@.rate <= u64::MAX
        &&& 0 <= self@.milli_tokens <= self@.capacity * 1000
        &&& 0 <= self@.created_ms <= self@.last_ms <= u64::MAX
        &&& 0 <= self@.granted
        &&& self@.granted * 1000 + self@.milli_tokens <= self@.capacity * 1000 + self@.rate * (
        self@.last_ms - self@.created_ms)
    }

    /// A fresh bucket, created full at instant `now_ms`, holding
    /// `capacity` tokens and refilling at `rate` tokens per second.
    pub fn new(capacity: u64, rate: u64, now_ms: u64) -> (b: Self)
        requires
            1 <= capacity <= MAX_BUCKET_CAPACITY,
            rate >= 1,
        ensures
            b.wf(),
            b@.capacity == capacity,
            b@.rate == rate,
            b@.milli_tokens == capacity * 1000,
            b@.last_ms == now_ms,
            b@.created_ms == now_ms,
            b@.granted == 0,
    {
        TokenBucket {
            capacity,
            rate,
            milli_tokens: capacity * 1000,
            last_ms: now_ms,
            created_ms: now_ms,
            granted: Ghost(0),
        }
    }

    /// One admission request at instant `now_ms`. The bucket first refills
    /// for the time passed since its last update; if a full token is then
    /// available it is consumed and the attempt admitted, otherwise the
    /// caller is told the smallest wait after which a token will have
    /// accumulated.
    pub fn try_acquire(&mut self, now_ms: u64) -> (r: Admission)
        requires
            old(self).wf(),
            old(self)@.last_ms <= now_ms,
        ensures
            final(self).wf(),
            final(self)@.capacity == old(self)@.capacity,
            final(self)@.rate == old(self)@.rate,
            final(self)@.created_ms == old(self)@.created_ms,
            final(self)@.last_ms == now_ms,
            ({
                let avail = refilled_milli(old(self)@, now_ms as int);
                &&& avail >= 1000 ==> {
                    &&& r == Admission::Granted
                    &&& final(self)@.milli_tokens == avail - 1000
                    &&& final(self)@.granted == old(self)@.granted + 1
                }
                &&& avail < 1000 ==> {
                    &&& final(self)@.milli_tokens == avail
                    &&& final(self)@.granted == old(self)@.granted
                    &&& (r matches Admission::RetryAfterMs(w) && w >= 1 && avail + old(
                        self,
                    )@.rate * w >= 1000 && avail + old(self)@.rate * (w - 1) < 1000)
                }
            }),
    {
        let ghost v0 = self@;
        let dt: u64 = now_ms - self.last_ms;
        let cap_milli: u64 = self.capacity * 1000;
        proof {
            // The widened refill product cannot overflow 128 bits.
            lemma_mul_upper_bound(self@.rate, u64::MAX as int, dt as int, u64::MAX as int);
        }
        let filled_wide: u128 = self.milli_tokens as u128 + (self.rate as u128) * (dt as u128);
        let filled: u64 = if filled_wide >= cap_milli as u128 {
            cap_milli
        } else {
            filled_wide as u64
        };
        proof {
            // Refilling preserves the admission bound: the refill added to
            // the budget is exactly what the elapsed time earned.
            lemma_mul_is_distributive_add(
                v0.rate,
                v0.last_ms - v0.created_ms,
                now_ms - v0.last_ms,
            );
            assert(filled == refilled_milli(v0, now_ms as int));
            assert(v0.granted * 1000 + filled <= v0.capacity * 1000 + v0.rate * (now_ms
                - v0.created_ms));
        }
        self.last_ms = now_ms;
        if filled >= 1000 {
            self.milli_tokens = filled - 1000;
            proof {
                self.granted@ = self.granted@ + 1;
            }
            Admission::Granted
        } else {
            self.milli_tokens = filled;
            let deficit: u64 = 1000 - filled;
            proof {
                lemma_div_pos_is_pos(deficit as int, self@.rate);
                lemma_div_nonincreasing(deficit as int, self@.rate);
            }
            let quot: u64 = deficit / self.rate;
            let rem: u64 = deficit % self.rate;
            let wait: u64 = if rem == 0 {
                quot
            } else {
                quot + 1
            };
            proof {
                // deficit == rate * quot + rem with 0 <= rem < rate pins the
                // ceiling: `wait` refill steps cover the deficit, one fewer
                // does not.
                lemma_fundamental_div_mod(deficit as int, self@.rate);
                lemma_mod_bound(deficit as int, self@.rate);
                lemma_mul_is_distributive_add(self@.rate, quot as int, 1);
                lemma_mul_is_distributive_sub(self@.rate, quot as int, 1);
            }
            Admission::RetryAfterMs(wait)
        }
    }
}

/// The no-burst law of the rate limiter: the permits granted since the
/// bucket was created never exceed its capacity plus what the refill rate
/// earned over the elapsed time. Hence once more than `capacity` permits
/// have been granted, the elapsed milliseconds are at least
/// `(granted - capacity) * 1000 / rate` — K attempts past the initial
/// burst take at least `(K - capacity) / rate` seconds.
pub proof fn lemma_no_unbounded_burst(b: &TokenBucket)
    requires
        b.wf(),
    ensures
        b@.granted * 1000 <= b@.capacity * 1000 + b@.rate * (b@.last_ms - b@.created_ms),
        b@.granted > b@.capacity ==> b@.last_ms - b@.created_ms >= ((b@.granted - b@.capacity)
            * 1000) / b@.rate,
{
    if b@.granted > b@.capacity {
        let excess = (b@.granted - b@.capacity) * 1000;
        let elapsed = b@.last_ms - b@.created_ms;
        assert(excess <= b@.rate * elapsed);
        lemma_div_is_ordered(excess, b@.rate * elapsed, b@.rate);
        lemma_div_multiples_vanish(elapsed, b@.rate);
    }
}

} // verus!
