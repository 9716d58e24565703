//! The process-level policy around the whole subscriber: after each failure,
//! give up, try again at once, or try again after a back-off.
use vstd::prelude::*;

verus! {

/// Failures that come faster than this after the last try end the process (ms).
pub const TOO_FAST_MS: u64 = 2000;

/// A quiet spell this long (ms) forgets the failures before it.
pub const QUIET_MS: u64 = 300000;

/// The failure that ends the process, counted within one burst.
pub const MAX_TIMES: u32 = 10;

/// The longest back-off, in seconds.
pub const MAX_BACKOFF_SECS: u64 = 30;

/// What to do after a failure.
#[derive(Debug, Clone, Copy, PartialEq, Eq, Structural)]
pub enum RetryDecision {
    /// Stop and report the failure.
    GiveUp,
    /// Try again at once.
    RetryNow,
    /// Sleep this many seconds, restart the clock, and try again.
    RetryAfter(u64),
}

/// How many failures the current burst has seen.
#[derive(Debug, Clone, Copy, PartialEq, Eq, Structural)]
pub struct RetryState {
    pub times: u32,
}

pub open spec fn pow2(n: nat) -> nat
    decreases n,
{
    if n == 0 {
        1
    } else {
        2 * pow2((n - 1) as nat)
    }
}

/// The back-off after the `times`-th failure: two to that power, at most
/// `MAX_BACKOFF_SECS`.
pub open spec fn backoff_spec(times: nat) -> u64 {
    if pow2(times) < MAX_BACKOFF_SECS {
        pow2(times) as u64
    } else {
        MAX_BACKOFF_SECS
    }
}

/// The count of the burst after a failure that came `elapsed_ms` after the
/// clock last started.
pub open spec fn times_after(times: u32, elapsed_ms: u64) -> u32 {
    let base = if elapsed_ms > QUIET_MS { 0 } else { times };
    if base < u32::MAX { (base + 1) as u32 } else { base }
}

/// The decision for the `times`-th failure of a burst.
pub open spec fn decision_spec(times: u32, elapsed_ms: u64) -> RetryDecision {
    if elapsed_ms < TOO_FAST_MS || times >= MAX_TIMES {
        RetryDecision::GiveUp
    } else if times == 1 {
        RetryDecision::RetryNow
    } else {
        RetryDecision::RetryAfter(backoff_spec(times as nat))
    }
}

proof fn lemma_pow2_grows(n: nat, m: nat)
    requires
        n <= m,
    ensures
        pow2(n) <= pow2(m),
    decreases m - n,
{
    if n < m {
        lemma_pow2_grows(n, (m - 1) as nat);
    }
}

/// The back-off after the `times`-th failure.
pub fn backoff_secs(times: u32) -> (r: u64)
    ensures
        r == backoff_spec(times as nat),
{
    let mut b: u64 = 1;
    let mut i: u32 = 0;
    while i < times && b < MAX_BACKOFF_SECS
        invariant
            i <= times,
            b == pow2(i as nat),
            b <= 2 * MAX_BACKOFF_SECS,
        decreases times - i,
    {
        b = b * 2;
        i = i + 1;
    }
    if b < MAX_BACKOFF_SECS {
        b
    } else {
        proof {
            lemma_pow2_grows(i as nat, times as nat);
        }
        MAX_BACKOFF_SECS
    }
}

impl RetryState {
    pub fn new() -> (r: RetryState)
        ensures
            r.times == 0,
    {
        RetryState { times: 0 }
    }

    /// Counts a failure that came `elapsed_ms` after the clock last started,
    /// and decides what comes next. A failure after a quiet spell of
    /// `QUIET_MS` starts a new burst; the first failure of a burst is tried
    /// again at once; one that comes within `TOO_FAST_MS`, or the
    /// `MAX_TIMES`-th of a burst, ends it all.
    pub fn on_failure(&mut self, elapsed_ms: u64) -> (r: RetryDecision)
        ensures
            final(self).times == times_after(old(self).times, elapsed_ms),
            r == decision_spec(final(self).times, elapsed_ms),
    {
        if elapsed_ms > QUIET_MS {
            self.times = 0;
        }
        if self.times < u32::MAX {
            self.times = self.times + 1;
        }
        if elapsed_ms < TOO_FAST_MS || self.times >= MAX_TIMES {
            RetryDecision::GiveUp
        } else if self.times == 1 {
            RetryDecision::RetryNow
        } else {
            RetryDecision::RetryAfter(backoff_secs(self.times))
        }
    }
}

} // verus!
