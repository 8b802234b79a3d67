//! Admission control: a counter per scope in the shared store, incremented
//! and given its expiry in one atomic round trip, read against a threshold.
use vstd::prelude::*;
use std::sync::Arc;
use crate::cache::RedisCache;
use crate::error::ServiceResult;

verus! {

pub const DEFAULT_RATE_LIMIT: i64 = 60;
pub const DEFAULT_WINDOW_SECS: u64 = 60;

/// Admits at most `max_requests` per window of `window_secs` seconds.
pub struct RateLimiter {
    cache: Arc<RedisCache>,
    max_requests: i64,
    window_secs: u64,
    fail_open: bool,
}

impl RateLimiter {
    /// The store handle that holds the counters.
    pub closed spec fn spec_cache(&self) -> Arc<RedisCache> {
        self.cache
    }

    pub closed spec fn spec_max_requests(&self) -> i64 {
        self.max_requests
    }

    pub closed spec fn spec_window_secs(&self) -> u64 {
        self.window_secs
    }

    pub closed spec fn spec_fail_open(&self) -> bool {
        self.fail_open
    }

    /// The decision on the counter value that the increment returned, or on
    /// the store's failure to return one.
    pub open spec fn admits_spec(&self, count: ServiceResult<i64>) -> bool {
        match count {
            Ok(c) => c <= self.spec_max_requests(),
            Err(_) => self.spec_fail_open(),
        }
    }

    /// The default policy: sixty requests a minute, admitting when the store
    /// cannot be reached.
    pub fn new(cache: Arc<RedisCache>) -> (r: RateLimiter)
        ensures
            r.spec_cache() == cache,
            r.spec_max_requests() == DEFAULT_RATE_LIMIT,
            r.spec_window_secs() == DEFAULT_WINDOW_SECS,
            r.spec_fail_open(),
    {
        RateLimiter::with_policy(cache, DEFAULT_RATE_LIMIT, DEFAULT_WINDOW_SECS, true)
    }

    /// A limiter with its own threshold and window, and with `fail_open`
    /// deciding what a store failure means.
    pub fn with_policy(cache: Arc<RedisCache>, max_requests: i64, window_secs: u64, fail_open: bool) -> (r: RateLimiter)
        ensures
            r.spec_cache() == cache,
            r.spec_max_requests() == max_requests,
            r.spec_window_secs() == window_secs,
            r.spec_fail_open() == fail_open,
    {
        RateLimiter { cache, max_requests, window_secs, fail_open }
    }

    pub fn cache(&self) -> (r: &Arc<RedisCache>)
        ensures
            *r == self.spec_cache(),
    {
        &self.cache
    }

    /// The admission scope: one for all callers.
    pub fn scope(&self) -> (r: &'static str)
        ensures
            r@ == "rate_limit"@,
    {
        "rate_limit"
    }

    pub fn max_requests(&self) -> (r: i64)
        ensures
            r == self.spec_max_requests(),
    {
        self.max_requests
    }

    /// The expiry given to the counter with every increment, in seconds.
    pub fn window_secs(&self) -> (r: u64)
        ensures
            r == self.spec_window_secs(),
    {
        self.window_secs
    }

    /// Admits where the incremented count is within the threshold; a store
    /// failure admits exactly when the limiter is set to fail open.
    pub fn admits(&self, count: &ServiceResult<i64>) -> (r: bool)
        ensures
            r == self.admits_spec(*count),
    {
        match count {
            Ok(c) => *c <= self.max_requests,
            Err(_) => self.fail_open,
        }
    }
}

/// The counter value that the store returns to the `k`-th of a series of
/// increments made at `times`: each increment re-applies an expiry of
/// `window` after it, so the count starts over from one where the gap since
/// the previous increment is a whole window or more.
pub open spec fn window_count(times: Seq<int>, window: int, k: int) -> int
    decreases k,
{
    if k <= 0 {
        1
    } else if times[k] - times[k - 1] >= window {
        1
    } else {
        window_count(times, window, k - 1) + 1
    }
}

/// Within one window, from a fresh counter, the first `max_requests` checks
/// are admitted and the next one is denied.
pub proof fn lemma_threshold_within_window(limiter: RateLimiter, times: Seq<int>)
    requires
        0 <= limiter.spec_max_requests() < i64::MAX,
        times.len() == limiter.spec_max_requests() + 1,
        forall|k: int| 0 < k < times.len() ==> times[0] <= #[trigger] times[k] < times[0]
            + limiter.spec_window_secs(),
        forall|k: int| 0 < k < times.len() ==> times[k - 1] <= #[trigger] times[k],
    ensures
        forall|k: int|
            0 <= k < times.len() ==> #[trigger] window_count(times, limiter.spec_window_secs() as int, k)
                == k + 1,
        forall|k: int|
            0 <= k < times.len() - 1 ==> limiter.admits_spec(
                Ok(#[trigger] window_count(times, limiter.spec_window_secs() as int, k) as i64),
            ),
        !limiter.admits_spec(
            Ok(window_count(times, limiter.spec_window_secs() as int, times.len() - 1) as i64),
        ),
{
    let w = limiter.spec_window_secs() as int;
    assert forall|k: int| 0 <= k < times.len() implies #[trigger] window_count(times, w, k) == k + 1 by {
        lemma_count_grows(times, w, k);
    }
    assert(window_count(times, w, times.len() - 1) == times.len());
}

proof fn lemma_count_grows(times: Seq<int>, window: int, k: int)
    requires
        0 <= k < times.len(),
        forall|j: int| 0 < j < times.len() ==> times[0] <= #[trigger] times[j] < times[0] + window,
        forall|j: int| 0 < j < times.len() ==> times[j - 1] <= #[trigger] times[j],
    ensures
        window_count(times, window, k) == k + 1,
    decreases k,
{
    if k > 0 {
        lemma_count_grows(times, window, k - 1);
        if k - 1 > 0 {
            assert(times[0] <= times[k - 1]);
        }
        assert(times[k] < times[0] + window);
    }
}

/// Once a whole window has passed since the last check, the next check
/// starts a fresh count and is admitted.
pub proof fn lemma_admitted_after_window(limiter: RateLimiter, times: Seq<int>, k: int)
    requires
        limiter.spec_max_requests() >= 1,
        0 < k < times.len(),
        times[k] - times[k - 1] >= limiter.spec_window_secs(),
    ensures
        window_count(times, limiter.spec_window_secs() as int, k) == 1,
        limiter.admits_spec(Ok(window_count(times, limiter.spec_window_secs() as int, k) as i64)),
{
}

} // verus!
