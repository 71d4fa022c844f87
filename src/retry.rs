use vstd::prelude::*;

verus! {

/// Attempts made to reach storage before giving up.
pub const MAX_ATTEMPTS: u32 = 5;

/// Pause after the first failed attempt, in milliseconds; it doubles after
/// each further failure.
pub const INITIAL_DELAY_MS: u64 = 500;

/// Time allowed for one attempt, in milliseconds.
pub const ATTEMPT_TIMEOUT_MS: u64 = 30_000;

/// How a connection attempt ended.
#[derive(Debug, Clone, Copy, PartialEq, Eq, Structural)]
pub enum AttemptOutcome {
    Connected,
    Failed,
    TimedOut,
}

/// What the bootstrap loop does next.
#[derive(Debug, Clone, Copy, PartialEq, Eq, Structural)]
pub enum RetryDecision {
    /// The connection is up: use it.
    Ready,
    /// Wait this many milliseconds, then try again.
    Wait(u64),
    /// Give up: storage is unavailable. `timed_out` tells whether the last
    /// attempt ran out of time rather than failing.
    GiveUp { timed_out: bool },
}

/// The pause after failed attempt number `attempt` (counted from 1).
pub open spec fn backoff_ms(attempt: nat) -> nat
    decreases attempt,
{
    if attempt <= 1 {
        INITIAL_DELAY_MS as nat
    } else {
        2 * backoff_ms((attempt - 1) as nat)
    }
}

/// The decision after attempt number `attempt` ended with `outcome`.
pub open spec fn retry_spec(attempt: nat, outcome: AttemptOutcome) -> RetryDecision {
    match outcome {
        AttemptOutcome::Connected => RetryDecision::Ready,
        _ => if attempt >= MAX_ATTEMPTS {
            RetryDecision::GiveUp { timed_out: outcome == AttemptOutcome::TimedOut }
        } else {
            RetryDecision::Wait(backoff_ms(attempt) as u64)
        },
    }
}

/// Decides what follows attempt number `attempt` of reaching storage.
pub fn next_step(attempt: u32, outcome: AttemptOutcome) -> (r: RetryDecision)
    requires
        1 <= attempt <= MAX_ATTEMPTS,
    ensures
        r == retry_spec(attempt as nat, outcome),
{
    match outcome {
        AttemptOutcome::Connected => RetryDecision::Ready,
        _ => {
            if attempt >= MAX_ATTEMPTS {
                RetryDecision::GiveUp { timed_out: outcome == AttemptOutcome::TimedOut }
            } else {
                let mut delay: u64 = INITIAL_DELAY_MS;
                let mut k: u32 = 1;
                while k < attempt
                    invariant
                        1 <= k <= attempt <= MAX_ATTEMPTS,
                        delay == backoff_ms(k as nat),
                        delay <= INITIAL_DELAY_MS * 16,
                        k < 5 ==> delay <= INITIAL_DELAY_MS * 8,
                    decreases attempt - k,
                {
                    proof {
                        lemma_backoff_bound(k as nat);
                    }
                    delay = delay * 2;
                    k = k + 1;
                    proof {
                        lemma_backoff_bound(k as nat);
                    }
                }
                RetryDecision::Wait(delay)
            }
        },
    }
}

proof fn lemma_backoff_bound(k: nat)
    requires
        1 <= k <= 5,
    ensures
        backoff_ms(k) <= INITIAL_DELAY_MS * 16,
        k < 5 ==> backoff_ms(k) <= INITIAL_DELAY_MS * 8,
        k < 4 ==> backoff_ms(k) <= INITIAL_DELAY_MS * 4,
        k < 3 ==> backoff_ms(k) <= INITIAL_DELAY_MS * 2,
        k < 2 ==> backoff_ms(k) <= INITIAL_DELAY_MS,
    decreases k,
{
    if k > 1 {
        lemma_backoff_bound((k - 1) as nat);
    }
}

/// The pauses double: after failure `k + 1` the wait is twice the wait after
/// failure `k`, starting from 500 ms.
pub proof fn lemma_backoff_doubles(k: nat)
    requires
        k >= 1,
    ensures
        backoff_ms(1) == 500,
        backoff_ms(k + 1) == 2 * backoff_ms(k),
{
}

} // verus!
