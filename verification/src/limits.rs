//! Retry with exponential backoff for outgoing requests, and the request
//! rate limit of the API.
use vstd::prelude::*;
use crate::config::RetryConfig;

verus! {

/// The wait before retry number `attempt` (0 for the first retry): the base
/// delay, doubled for each retry before it, never more than `max`.
pub open spec fn backoff(base: nat, max: nat, attempt: nat) -> nat
    decreases attempt,
{
    if attempt == 0 {
        if base <= max {
            base
        } else {
            max
        }
    } else {
        let before = backoff(base, max, (attempt - 1) as nat);
        if 2 * before <= max {
            2 * before
        } else {
            max
        }
    }
}

/// A wait never exceeds the longest delay, and never shrinks from one retry
/// to the next.
pub proof fn lemma_backoff_bounded_and_growing(base: nat, max: nat, attempt: nat)
    ensures
        backoff(base, max, attempt) <= max,
        backoff(base, max, attempt) <= backoff(base, max, attempt + 1),
    decreases attempt,
{
    if attempt > 0 {
        lemma_backoff_bounded_and_growing(base, max, (attempt - 1) as nat);
    }
}

/// Once the wait reaches the longest delay it stays there.
pub proof fn lemma_backoff_saturated(base: nat, max: nat, i: nat, n: nat)
    requires
        backoff(base, max, i) == max,
        i <= n,
    ensures
        backoff(base, max, n) == max,
    decreases n - i,
{
    if i < n {
        assert(backoff(base, max, i + 1) == max);
        lemma_backoff_saturated(base, max, i + 1, n);
    }
}

/// Two to the power `k`.
pub open spec fn two_to(k: nat) -> nat
    decreases k,
{
    if k == 0 {
        1
    } else {
        2 * two_to((k - 1) as nat)
    }
}

/// The wait before retry number `attempt` is the base delay times
/// `2^attempt`, cut to the longest delay when it would exceed it.
pub proof fn lemma_backoff_doubles(base: nat, max: nat, attempt: nat)
    ensures
        backoff(base, max, attempt) == (if base * two_to(attempt) <= max {
            base * two_to(attempt)
        } else {
            max
        }),
    decreases attempt,
{
    if attempt > 0 {
        let k = (attempt - 1) as nat;
        lemma_backoff_doubles(base, max, k);
        let x = base * two_to(k);
        assert(base * two_to(attempt) == 2 * x) by (nonlinear_arith)
            requires
                two_to(attempt) == 2 * two_to(k),
                x == base * two_to(k),
        ;
    } else {
        assert(base * 1 == base);
    }
}

/// The wait, in milliseconds, before retry number `attempt`.
pub fn retry_delay_ms(retry: &RetryConfig, attempt: u32) -> (r: u64)
    ensures
        r == backoff(retry.base_delay_ms as nat, retry.max_delay_ms as nat, attempt as nat),
{
    let max = retry.max_delay_ms;
    let mut d: u64 = if retry.base_delay_ms <= max {
        retry.base_delay_ms
    } else {
        max
    };
    let mut i: u32 = 0;
    while i < attempt && d < max
        invariant
            i <= attempt,
            max == retry.max_delay_ms,
            d == backoff(retry.base_delay_ms as nat, max as nat, i as nat),
        decreases attempt - i,
    {
        proof {
            lemma_backoff_bounded_and_growing(retry.base_delay_ms as nat, max as nat, i as nat);
        }
        d = if d <= max / 2 {
            2 * d
        } else {
            max
        };
        i = i + 1;
    }
    proof {
        if i < attempt {
            lemma_backoff_saturated(retry.base_delay_ms as nat, max as nat, i as nat, attempt as nat);
        }
    }
    d
}

/// Whether another attempt is made after `attempts_made` failed ones: the
/// configured number of attempts includes the first.
pub fn may_retry(retry: &RetryConfig, attempts_made: u32) -> (r: bool)
    ensures
        r == (attempts_made < retry.max_attempts),
{
    attempts_made < retry.max_attempts
}

/// The length of a rate-limit window, in seconds.
pub open spec fn window_secs() -> int {
    60
}

/// The requests admitted in the current one-minute window.
#[derive(Debug, Clone, Copy, PartialEq, Eq, Structural)]
pub struct RateWindow {
    /// When the window began, in seconds.
    pub start_secs: u64,
    /// Requests admitted since then.
    pub admitted: u32,
}

/// Whether a request at `now` falls outside the window that began at `start`
/// (also when the clock went back).
pub open spec fn window_over(start: u64, now: u64) -> bool {
    now < start || now >= start + window_secs()
}

impl RateWindow {
    /// An empty window.
    pub fn new() -> (w: RateWindow)
        ensures
            w.start_secs == 0,
            w.admitted == 0,
    {
        RateWindow { start_secs: 0, admitted: 0 }
    }

    /// Lets a request in at `now_secs` when fewer than `limit` requests were
    /// admitted in its minute; a request outside the current window opens a
    /// new one. A refused request is not counted.
    pub fn try_enter(&mut self, now_secs: u64, limit: u32) -> (r: bool)
        ensures
            ({
                let fresh = window_over(old(self).start_secs, now_secs);
                let start = if fresh { now_secs } else { old(self).start_secs };
                let before = if fresh { 0 } else { old(self).admitted as int };
                &&& final(self).start_secs == start
                &&& r == (before < limit)
                &&& final(self).admitted == if r { before + 1 } else { before }
            }),
    {
        if now_secs < self.start_secs || now_secs - self.start_secs >= 60 {
            self.start_secs = now_secs;
            self.admitted = 0;
        }
        if self.admitted < limit {
            self.admitted = self.admitted + 1;
            true
        } else {
            false
        }
    }
}

/// No window ever admits more than the limit: a window that holds at most
/// `limit` admitted requests still does after any request.
pub proof fn lemma_window_never_exceeds_limit(before: RateWindow, after: RateWindow, now: u64, limit: u32, r: bool)
    requires
        before.admitted <= limit,
        ({
            let fresh = window_over(before.start_secs, now);
            let b = if fresh { 0 } else { before.admitted as int };
            &&& r == (b < limit)
            &&& after.admitted == if r { b + 1 } else { b }
        }),
    ensures
        after.admitted <= limit,
{
}

} // verus!
