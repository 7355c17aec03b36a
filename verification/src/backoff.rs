//! Backoff shapes: how the delay between attempts grows with the number of
//! the attempt that has just completed.

use crate::policy::RetryPolicy;
use vstd::arithmetic::power2::{
    lemma2_to64, lemma_pow2_strictly_increases, lemma_pow2_unfold, pow2,
};
use vstd::pervasive::unreached;
use vstd::prelude::*;

verus! {

/// The shape of the delay curve that a policy follows.
#[derive(Debug, Clone, Copy, PartialEq, Eq, Structural)]
pub enum BackoffPolicy {
    /// Every delay is the base delay.
    Constant,
    /// The delay after attempt `n` is `n` base delays.
    Linear,
    /// The delay doubles with every attempt, starting at the base delay.
    Exponential,
}

/// Delay in milliseconds after attempt `attempt` under constant backoff.
pub open spec fn constant_delay(base: nat, attempt: nat) -> nat {
    base
}

/// Delay in milliseconds after attempt `attempt` under linear backoff.
pub open spec fn linear_delay(base: nat, attempt: nat) -> nat {
    base * attempt
}

/// Delay in milliseconds after attempt `attempt` under exponential backoff.
/// Attempts are numbered from one.
pub open spec fn exponential_delay(base: nat, attempt: nat) -> nat
    recommends
        attempt >= 1,
{
    base * pow2((attempt - 1) as nat)
}

impl BackoffPolicy {
    /// The delay this shape prescribes, as an unbounded number.
    pub open spec fn delay(self, base: nat, attempt: nat) -> nat
        recommends
            attempt >= 1,
    {
        match self {
            BackoffPolicy::Constant => constant_delay(base, attempt),
            BackoffPolicy::Linear => linear_delay(base, attempt),
            BackoffPolicy::Exponential => exponential_delay(base, attempt),
        }
    }

    /// Computes the delay after attempt `attempt`, or `None` when it does
    /// not fit in 64 bits.
    pub fn checked_delay(&self, base: u64, attempt: u64) -> (delay: Option<u64>)
        requires
            attempt >= 1,
        ensures
            self.delay(base as nat, attempt as nat) <= u64::MAX ==> delay == Some(
                self.delay(base as nat, attempt as nat) as u64,
            ),
            self.delay(base as nat, attempt as nat) > u64::MAX ==> delay.is_none(),
    {
        match self {
            BackoffPolicy::Constant => Some(base),
            BackoffPolicy::Linear => base.checked_mul(attempt),
            BackoffPolicy::Exponential => checked_exponential(base, attempt),
        }
    }
}

/// `base * 2^(attempt - 1)` by repeated doubling, stopping at the first
/// product that leaves the 64-bit range.
fn checked_exponential(base: u64, attempt: u64) -> (delay: Option<u64>)
    requires
        attempt >= 1,
    ensures
        exponential_delay(base as nat, attempt as nat) <= u64::MAX ==> delay == Some(
            exponential_delay(base as nat, attempt as nat) as u64,
        ),
        exponential_delay(base as nat, attempt as nat) > u64::MAX ==> delay.is_none(),
{
    if base == 0 {
        assert(exponential_delay(0, attempt as nat) == 0) by (nonlinear_arith)
            requires
                exponential_delay(0, attempt as nat) == 0 * pow2((attempt - 1) as nat),
        ;
        return Some(0);
    }
    let mut delay: u64 = base;
    let mut done: u64 = 1;
    proof {
        lemma2_to64();
        assert(base * pow2(0) == base) by (nonlinear_arith)
            requires
                pow2(0) == 1,
        ;
    }
    while done < attempt
        invariant
            base >= 1,
            1 <= done <= attempt,
            delay == base * pow2((done - 1) as nat),
        decreases attempt - done,
    {
        proof {
            lemma_pow2_unfold(done as nat);
            assert(base * pow2(done as nat) == 2 * (base * pow2((done - 1) as nat)))
                by (nonlinear_arith)
                requires
                    pow2(done as nat) == 2 * pow2((done - 1) as nat),
            ;
        }
        match delay.checked_mul(2) {
            None => {
                proof {
                    if done < attempt - 1 {
                        lemma_pow2_strictly_increases(done as nat, (attempt - 1) as nat);
                    }
                    assert(base * pow2((attempt - 1) as nat) >= base * pow2(done as nat))
                        by (nonlinear_arith)
                        requires
                            pow2((attempt - 1) as nat) >= pow2(done as nat),
                            base >= 1,
                    ;
                }
                return None;
            },
            Some(doubled) => {
                delay = doubled;
            },
        }
        done += 1;
    }
    Some(delay)
}

/// Exponential backoff: the base delay doubled once for every attempt after
/// the first.
pub fn exponential_backoff(policy: &RetryPolicy, attempt: u64) -> (delay: u64)
    requires
        attempt >= 1,
        exponential_delay(policy.base_delay as nat, attempt as nat) <= u64::MAX,
    ensures
        delay == exponential_delay(policy.base_delay as nat, attempt as nat),
{
    match checked_exponential(policy.base_delay, attempt) {
        Some(delay) => delay,
        None => unreached(),
    }
}

/// Linear backoff: the base delay times the attempt number.
pub fn linear_backoff(policy: &RetryPolicy, attempt: u64) -> (delay: u64)
    requires
        linear_delay(policy.base_delay as nat, attempt as nat) <= u64::MAX,
    ensures
        delay == linear_delay(policy.base_delay as nat, attempt as nat),
{
    policy.base_delay * attempt
}

/// Constant backoff: the base delay, whatever the attempt number.
pub fn constant_backoff(policy: &RetryPolicy, _attempt: u64) -> (delay: u64)
    ensures
        delay == constant_delay(policy.base_delay as nat, _attempt as nat),
        delay == policy.base_delay,
{
    policy.base_delay
}

/// Where the three shapes meet and part: after the first attempt every
/// shape waits the base delay; after the third, linear backoff waits three
/// base delays and exponential backoff four; constant backoff waits the
/// base delay after every attempt.
pub proof fn backoff_shapes(base: nat, attempt: nat)
    ensures
        exponential_delay(base, 1) == base,
        exponential_delay(base, 3) == base * 4,
        linear_delay(base, 1) == base,
        linear_delay(base, 3) == base * 3,
        constant_delay(base, attempt) == base,
{
    lemma2_to64();
    assert(base * pow2(0) == base) by (nonlinear_arith)
        requires
            pow2(0) == 1,
    ;
    assert(base * pow2(2) == base * 4) by (nonlinear_arith)
        requires
            pow2(2) == 4,
    ;
}

/// No shape ever shortens the wait: a later attempt waits at least as long
/// as an earlier one.
pub proof fn delay_never_shrinks(shape: BackoffPolicy, base: nat, earlier: nat, later: nat)
    requires
        1 <= earlier <= later,
    ensures
        shape.delay(base, earlier) <= shape.delay(base, later),
{
    match shape {
        BackoffPolicy::Constant => {},
        BackoffPolicy::Linear => {
            assert(base * earlier <= base * later) by (nonlinear_arith)
                requires
                    earlier <= later,
            ;
        },
        BackoffPolicy::Exponential => {
            if earlier < later {
                lemma_pow2_strictly_increases((earlier - 1) as nat, (later - 1) as nat);
            }
            assert(base * pow2((earlier - 1) as nat) <= base * pow2((later - 1) as nat))
                by (nonlinear_arith)
                requires
                    pow2((earlier - 1) as nat) <= pow2((later - 1) as nat),
            ;
        },
    }
}

} // verus!
