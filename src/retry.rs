//! Bounded retry with a fixed delay between attempts.
use vstd::prelude::*;

verus! {

/// How many times an operation is tried at startup.
pub const MAX_RETRY_ATTEMPTS: u32 = 3;

/// The fixed pause after a failed attempt, in milliseconds.
pub const RETRY_DELAY_MS: u64 = 5000;

/// Up to `max_attempts` tries, `delay_ms` apart; no backoff.
#[derive(Clone, Copy, Debug, PartialEq, Eq, Structural)]
pub struct RetryPolicy {
    pub max_attempts: u32,
    pub delay_ms: u64,
}

/// What to do once attempt number `attempt` (counted from 1) has finished.
#[derive(Clone, Copy, Debug, PartialEq, Eq, Structural)]
pub enum RetryStep {
    /// The attempt succeeded: stop.
    Done,
    /// Sleep `delay_ms`, then make attempt number `next_attempt`.
    Retry { next_attempt: u32, delay_ms: u64 },
    /// Every allowed attempt failed; `attempts` were made.
    Exhausted { attempts: u32 },
}

impl RetryPolicy {
    /// Three attempts, five seconds apart.
    pub fn standard() -> (p: RetryPolicy)
        ensures
            p.max_attempts == MAX_RETRY_ATTEMPTS,
            p.delay_ms == RETRY_DELAY_MS,
    {
        RetryPolicy { max_attempts: MAX_RETRY_ATTEMPTS, delay_ms: RETRY_DELAY_MS }
    }

    pub open spec fn after_spec(self, attempt: u32, succeeded: bool) -> RetryStep {
        if succeeded {
            RetryStep::Done
        } else if attempt < self.max_attempts {
            RetryStep::Retry { next_attempt: (attempt + 1) as u32, delay_ms: self.delay_ms }
        } else {
            RetryStep::Exhausted { attempts: attempt }
        }
    }

    /// Decides what follows attempt number `attempt`: stop on the first success,
    /// retry after the fixed delay while attempts remain, otherwise give up.
    pub fn after_attempt(&self, attempt: u32, succeeded: bool) -> (s: RetryStep)
        requires
            1 <= attempt <= self.max_attempts,
        ensures
            s == self.after_spec(attempt, succeeded),
    {
        if succeeded {
            RetryStep::Done
        } else if attempt < self.max_attempts {
            RetryStep::Retry { next_attempt: attempt + 1, delay_ms: self.delay_ms }
        } else {
            RetryStep::Exhausted { attempts: attempt }
        }
    }

    /// The result of driving the policy from attempt number `attempt` on, where
    /// attempt `k` succeeds exactly when `outcomes[k - 1]` holds: `Some((true, k))`
    /// for success at attempt `k`, `Some((false, k))` for giving up after `k`
    /// attempts, `None` where `outcomes` ran out first.
    pub open spec fn run_from(self, outcomes: Seq<bool>, attempt: nat) -> Option<(bool, nat)>
        decreases self.max_attempts - attempt,
    {
        if attempt < 1 || attempt > self.max_attempts || attempt > outcomes.len() {
            None
        } else {
            match self.after_spec(attempt as u32, outcomes[attempt - 1]) {
                RetryStep::Done => Some((true, attempt)),
                RetryStep::Exhausted { attempts } => Some((false, attempts as nat)),
                RetryStep::Retry { next_attempt, delay_ms } => {
                    if next_attempt > attempt {
                        self.run_from(outcomes, next_attempt as nat)
                    } else {
                        None
                    }
                },
            }
        }
    }
}

/// `n` failures in a row.
pub open spec fn failures(n: nat) -> Seq<bool> {
    Seq::new(n, |i: int| false)
}

proof fn lemma_run_from(p: RetryPolicy, n: nat, k: nat)
    requires
        1 <= k <= p.max_attempts,
        k <= n + 1,
    ensures
        p.run_from(failures(n).push(true), k) == if n < p.max_attempts {
            Some((true, n + 1))
        } else {
            Some((false, p.max_attempts as nat))
        },
    decreases p.max_attempts - k,
{
    let o = failures(n).push(true);
    if k <= n {
        assert(o[k - 1] == false);
        if k < p.max_attempts {
            lemma_run_from(p, n, k + 1);
        }
    } else {
        assert(o[k - 1] == true);
    }
}

/// `n` failed attempts followed by a success: where `n` is below the policy's
/// bound the operation succeeds at attempt `n + 1` and is not tried again;
/// otherwise it is reported exhausted after exactly `max_attempts` attempts.
pub proof fn lemma_failures_then_success(p: RetryPolicy, n: nat)
    requires
        p.max_attempts >= 1,
    ensures
        n < p.max_attempts ==> p.run_from(failures(n).push(true), 1) == Some((true, n + 1)),
        n >= p.max_attempts ==> p.run_from(failures(n).push(true), 1) == Some(
            (false, p.max_attempts as nat),
        ),
{
    lemma_run_from(p, n, 1);
}

} // verus!
