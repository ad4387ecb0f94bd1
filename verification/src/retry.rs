//! Retrying hardware writes with bounded exponential backoff.
//!
//! A single brightness write may transiently fail.  The worker retries it a
//! bounded number of times, sleeping between attempts for delays drawn from
//! an exponential schedule (10 ms, 20 ms, 40 ms, ...).  The decision of what
//! to do after each attempt is made here; the host performs the actual write
//! and the sleep.  The level handed to hardware is clamped to the target's
//! own `[min, max]` range exactly once per write.

use vstd::prelude::*;

verus! {

use vstd::arithmetic::power2::{pow2, lemma_pow2_unfold, lemma_pow2_strictly_increases,
    lemma2_to64};

/// Number of write attempts made for one level before giving up, unless the
/// caller picks another bound.
pub const DEFAULT_MAX_ATTEMPTS: usize = 5;

/// A brightness level clamped to `[min_level, max_level]`.
pub open spec fn clamp_spec(level: u32, min_level: u32, max_level: u32) -> u32 {
    if level < min_level {
        min_level
    } else if level > max_level {
        max_level
    } else {
        level
    }
}

/// Clamp a requested level to the closed range a target supports.
pub fn clamp_level(level: u32, min_level: u32, max_level: u32) -> (clamped: u32)
    requires
        min_level <= max_level,
    ensures
        clamped == clamp_spec(level, min_level, max_level),
        min_level <= clamped <= max_level,
{
    if level < min_level {
        min_level
    } else if level > max_level {
        max_level
    } else {
        level
    }
}

/// Clamping is idempotent: a value already inside the range — in particular
/// one that was just clamped — is returned unchanged, so clamping once per
/// write is exactly as good as clamping once per intent.
pub proof fn lemma_clamp_idempotent(level: u32, min_level: u32, max_level: u32)
    requires
        min_level <= max_level,
    ensures
        clamp_spec(clamp_spec(level, min_level, max_level), min_level, max_level)
            == clamp_spec(level, min_level, max_level),
        min_level <= level <= max_level ==> clamp_spec(level, min_level, max_level) == level,
{
}

/// The delay slept after failed attempt number `attempt` (counting from 0):
/// 10 ms doubled `attempt` times.
pub open spec fn backoff_delay(attempt: nat) -> int
    decreases attempt,
{
    if attempt == 0 {
        10
    } else {
        2 * backoff_delay((attempt - 1) as nat)
    }
}

/// The backoff schedule in closed form: the delay after failed attempt
/// `attempt` is `10 * 2^attempt` milliseconds.
pub proof fn lemma_backoff_exact(attempt: nat)
    ensures
        backoff_delay(attempt) == 10 * pow2(attempt),
    decreases attempt,
{
    if attempt == 0 {
        lemma2_to64();
    } else {
        lemma_backoff_exact((attempt - 1) as nat);
        lemma_pow2_unfold(attempt);
    }
}

/// Every delay of the first 32 schedule entries fits comfortably in a `u64`
/// count of milliseconds.
pub proof fn lemma_backoff_fits(attempt: nat)
    requires
        attempt < 32,
    ensures
        10 <= backoff_delay(attempt) <= 0x5_0000_0000,
{
    lemma_backoff_exact(attempt);
    lemma2_to64();
    if attempt < 31 {
        lemma_pow2_strictly_increases(attempt, 31);
    }
}

/// Later delays are strictly longer: the schedule strictly increases.
pub proof fn lemma_backoff_strictly_increasing(earlier: nat, later: nat)
    requires
        earlier < later,
    ensures
        backoff_delay(earlier) < backoff_delay(later),
{
    lemma_backoff_exact(earlier);
    lemma_backoff_exact(later);
    lemma_pow2_strictly_increases(earlier, later);
}

/// How many attempts one write is given before the worker reports failure.
#[derive(Clone, Copy, Debug, PartialEq, Eq, Structural)]
pub struct RetryPolicy {
    pub max_attempts: usize,
}

impl RetryPolicy {
    /// A usable policy grants at least one attempt; the bound of 32 keeps
    /// every delay of the schedule well inside a `u64` of milliseconds.
    pub open spec fn wf(self) -> bool {
        1 <= self.max_attempts <= 32
    }

    /// The policy with the stock number of attempts.
    pub fn standard() -> (policy: RetryPolicy)
        ensures
            policy.wf(),
            policy.max_attempts == DEFAULT_MAX_ATTEMPTS,
    {
        RetryPolicy { max_attempts: DEFAULT_MAX_ATTEMPTS }
    }
}

/// What the worker must do after one write attempt has finished.
#[derive(Clone, Copy, Debug, PartialEq, Eq, Structural)]
pub enum RetryAction {
    /// The write succeeded; the level is applied.
    Done,
    /// The write failed and attempts remain: sleep this many milliseconds,
    /// then try again.
    Retry { delay_ms: u64 },
    /// The write failed and the attempt budget is spent: report the failure
    /// and move on without crashing the loop.
    GiveUp,
}

/// The action decided after an attempt, given how many attempts had already
/// been made before it and whether it succeeded.
pub open spec fn retry_step_action(policy: RetryPolicy, attempts_before: nat, ok: bool)
    -> RetryAction {
    if ok {
        RetryAction::Done
    } else if attempts_before + 1 < policy.max_attempts {
        RetryAction::Retry { delay_ms: backoff_delay(attempts_before) as u64 }
    } else {
        RetryAction::GiveUp
    }
}

/// Progress of one retried write.  The host drives it: perform a write, feed
/// the outcome to [`RetryState::on_attempt`], and obey the returned action.
pub struct RetryState {
    attempts_made: usize,
}

impl RetryState {
    /// How many attempts have been made so far.
    pub closed spec fn attempts(self) -> nat {
        self.attempts_made as nat
    }

    /// A fresh state: no attempt has been made yet.
    pub fn new() -> (state: RetryState)
        ensures
            state.attempts() == 0,
    {
        RetryState { attempts_made: 0 }
    }

    /// Record the outcome of one write attempt and decide what follows.
    pub fn on_attempt(&mut self, policy: &RetryPolicy, ok: bool) -> (action: RetryAction)
        requires
            policy.wf(),
            old(self).attempts() < policy.max_attempts,
        ensures
            final(self).attempts() == old(self).attempts() + 1,
            action == retry_step_action(*policy, old(self).attempts(), ok),
    {
        let attempts_before = self.attempts_made;
        self.attempts_made = self.attempts_made + 1;
        if ok {
            RetryAction::Done
        } else if self.attempts_made < policy.max_attempts {
            proof {
                lemma_backoff_fits(attempts_before as nat);
            }
            let delay_ms = backoff_delay_ms(attempts_before);
            RetryAction::Retry { delay_ms }
        } else {
            RetryAction::GiveUp
        }
    }
}

/// Compute the backoff delay, in milliseconds, slept after failed attempt
/// number `attempt`.
pub fn backoff_delay_ms(attempt: usize) -> (delay_ms: u64)
    requires
        attempt < 32,
    ensures
        delay_ms == backoff_delay(attempt as nat),
{
    let mut delay_ms: u64 = 10;
    let mut doublings: usize = 0;
    while doublings < attempt
        invariant
            doublings <= attempt < 32,
            delay_ms == backoff_delay(doublings as nat),
        decreases attempt - doublings,
    {
        proof {
            lemma_backoff_fits((doublings + 1) as nat);
        }
        delay_ms = delay_ms * 2;
        doublings = doublings + 1;
    }
    delay_ms
}

/// Retry bound: a write that fails every time is attempted exactly
/// `policy.max_attempts` times.  Each failure short of the budget asks for
/// another attempt after a sleep, the sleeps strictly increase from one
/// retry to the next, and the final failure yields `GiveUp`, after which
/// [`RetryState::on_attempt`] admits no further attempt.
pub proof fn lemma_retry_bound(policy: RetryPolicy)
    requires
        policy.wf(),
    ensures
        forall|k: nat| k + 1 < policy.max_attempts
            ==> #[trigger] retry_step_action(policy, k, false)
                == (RetryAction::Retry { delay_ms: backoff_delay(k) as u64 }),
        forall|k: nat| k + 1 < policy.max_attempts
            ==> #[trigger] backoff_delay(k) < backoff_delay(k + 1),
        retry_step_action(policy, (policy.max_attempts - 1) as nat, false)
            == RetryAction::GiveUp,
{
    assert forall|k: nat| k + 1 < policy.max_attempts
        implies #[trigger] backoff_delay(k) < backoff_delay(k + 1) by {
        lemma_backoff_strictly_increasing(k, k + 1);
    }
}

} // verus!
