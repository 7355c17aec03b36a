//! Retry policies: the attempt limit, the base delay and the backoff shape.

use crate::backoff::BackoffPolicy;
pub use crate::limit::RetryLimit;
use vstd::prelude::*;

verus! {

/// An immutable retry policy.
#[derive(Debug, Clone, Copy)]
pub struct RetryPolicy {
    pub limit: RetryLimit,
    pub base_delay: u64,
    pub delay_time: BackoffPolicy,
}

impl RetryPolicy {
    /// Tells whether a run that has made `count` attempts may make another.
    pub fn can_retry(&self, count: u64) -> (b: bool)
        ensures
            b == self.limit.admits(count as nat),
    {
        count < self.limit
    }

    /// The wait in milliseconds after attempt `attempt`: what the backoff
    /// shape prescribes, held at the largest 64-bit value where the exact
    /// delay would exceed it.
    pub open spec fn wait_after(self, attempt: nat) -> u64
        recommends
            attempt >= 1,
    {
        let exact = self.delay_time.delay(self.base_delay as nat, attempt);
        if exact <= u64::MAX {
            exact as u64
        } else {
            u64::MAX
        }
    }

    /// Computes the wait in milliseconds that follows attempt `count`.
    pub fn wait_time(&self, count: u64) -> (millis: u64)
        requires
            count >= 1,
        ensures
            millis == self.wait_after(count as nat),
    {
        match self.delay_time.checked_delay(self.base_delay, count) {
            Some(millis) => millis,
            None => u64::MAX,
        }
    }
}

/// The policy in force where none was chosen: no attempt limit, one second
/// between attempts, constant backoff.
pub open spec fn default_policy() -> RetryPolicy {
    RetryPolicy {
        limit: RetryLimit::Unlimited,
        base_delay: 1000,
        delay_time: BackoffPolicy::Constant,
    }
}

impl Default for RetryPolicy {
    fn default() -> (policy: Self)
        ensures
            policy == default_policy(),
    {
        RetryPolicy {
            limit: RetryLimit::Unlimited,
            base_delay: 1000,
            delay_time: BackoffPolicy::Constant,
        }
    }
}

/// Collects the three fields of a policy, each of which may be left unset.
#[derive(Debug)]
pub struct RetryPolicyBuilder {
    limit: Option<RetryLimit>,
    base_delay: Option<u64>,
    backoff_policy: Option<BackoffPolicy>,
}

/// Says which fields a builder lacked when a policy was asked of it.
#[derive(Debug, Clone, Copy)]
pub struct RetryPolicyBuilderError {
    pub missing_limit: bool,
    pub missing_base_delay: bool,
    pub missing_backoff_policy: bool,
}

impl Default for RetryPolicyBuilder {
    fn default() -> (builder: Self)
        ensures
            builder.chosen_limit().is_none(),
            builder.chosen_base_delay().is_none(),
            builder.chosen_backoff().is_none(),
    {
        RetryPolicyBuilder { limit: None, base_delay: None, backoff_policy: None }
    }
}

impl RetryPolicyBuilder {
    /// The limit chosen so far, if any.
    pub closed spec fn chosen_limit(self) -> Option<RetryLimit> {
        self.limit
    }

    /// The base delay chosen so far, if any.
    pub closed spec fn chosen_base_delay(self) -> Option<u64> {
        self.base_delay
    }

    /// The backoff shape chosen so far, if any.
    pub closed spec fn chosen_backoff(self) -> Option<BackoffPolicy> {
        self.backoff_policy
    }

    /// True when every field has been chosen.
    pub open spec fn is_complete(self) -> bool {
        &&& self.chosen_limit().is_some()
        &&& self.chosen_base_delay().is_some()
        &&& self.chosen_backoff().is_some()
    }

    /// The policy made of the chosen fields.
    pub open spec fn chosen_policy(self) -> RetryPolicy
        recommends
            self.is_complete(),
    {
        RetryPolicy {
            limit: self.chosen_limit().unwrap(),
            base_delay: self.chosen_base_delay().unwrap(),
            delay_time: self.chosen_backoff().unwrap(),
        }
    }

    /// The policy made of the chosen fields, each unset field taken from the
    /// default policy.
    pub open spec fn policy_or_defaults(self) -> RetryPolicy {
        RetryPolicy {
            limit: match self.chosen_limit() {
                Some(limit) => limit,
                None => default_policy().limit,
            },
            base_delay: match self.chosen_base_delay() {
                Some(base_delay) => base_delay,
                None => default_policy().base_delay,
            },
            delay_time: match self.chosen_backoff() {
                Some(backoff) => backoff,
                None => default_policy().delay_time,
            },
        }
    }

    /// The report on the fields that are still unset.
    pub open spec fn missing(self) -> RetryPolicyBuilderError {
        RetryPolicyBuilderError {
            missing_limit: self.chosen_limit().is_none(),
            missing_base_delay: self.chosen_base_delay().is_none(),
            missing_backoff_policy: self.chosen_backoff().is_none(),
        }
    }

    /// A builder with every field unset.
    #[inline]
    pub fn new() -> (builder: Self)
        ensures
            builder.chosen_limit().is_none(),
            builder.chosen_base_delay().is_none(),
            builder.chosen_backoff().is_none(),
    {
        Default::default()
    }

    /// A builder with every field set to its default: no limit, a base
    /// delay of 1000 ms, constant backoff.
    #[inline]
    pub fn new_with_defaults() -> (builder: Self)
        ensures
            builder.is_complete(),
            builder.chosen_policy() == default_policy(),
    {
        RetryPolicyBuilder {
            limit: Some(RetryLimit::Unlimited),
            base_delay: Some(1000),
            backoff_policy: Some(BackoffPolicy::Constant),
        }
    }

    /// Sets the greatest number of attempts.
    #[inline]
    pub fn limit(self, limit: RetryLimit) -> (builder: Self)
        ensures
            builder.chosen_limit() == Some(limit),
            builder.chosen_base_delay() == self.chosen_base_delay(),
            builder.chosen_backoff() == self.chosen_backoff(),
    {
        RetryPolicyBuilder {
            limit: Some(limit),
            base_delay: self.base_delay,
            backoff_policy: self.backoff_policy,
        }
    }

    /// Sets the base delay, in milliseconds, from which the backoff shape
    /// computes the wait after each failed attempt.
    #[inline]
    pub fn base_delay(self, base_delay: u64) -> (builder: Self)
        ensures
            builder.chosen_limit() == self.chosen_limit(),
            builder.chosen_base_delay() == Some(base_delay),
            builder.chosen_backoff() == self.chosen_backoff(),
    {
        RetryPolicyBuilder {
            limit: self.limit,
            base_delay: Some(base_delay),
            backoff_policy: self.backoff_policy,
        }
    }

    /// Sets the backoff shape.
    #[inline]
    pub fn backoff_policy(self, backoff_policy: BackoffPolicy) -> (builder: Self)
        ensures
            builder.chosen_limit() == self.chosen_limit(),
            builder.chosen_base_delay() == self.chosen_base_delay(),
            builder.chosen_backoff() == Some(backoff_policy),
    {
        RetryPolicyBuilder {
            limit: self.limit,
            base_delay: self.base_delay,
            backoff_policy: Some(backoff_policy),
        }
    }

    /// Tells whether every field has been set, which is what `build` asks.
    #[inline]
    pub fn is_ready(&self) -> (ready: bool)
        ensures
            ready == self.is_complete(),
    {
        self.limit.is_some() && self.base_delay.is_some() && self.backoff_policy.is_some()
    }

    /// Builds the policy from a builder whose fields are all set. For a
    /// builder that may lack fields, use `try_build` or
    /// `build_with_defaults`.
    #[inline]
    pub fn build(self) -> (policy: RetryPolicy)
        requires
            self.is_complete(),
        ensures
            policy == self.chosen_policy(),
    {
        RetryPolicy {
            limit: self.limit.unwrap(),
            base_delay: self.base_delay.unwrap(),
            delay_time: self.backoff_policy.unwrap(),
        }
    }

    /// Builds the policy, taking every unset field from the default policy.
    #[inline]
    pub fn build_with_defaults(self) -> (policy: RetryPolicy)
        ensures
            policy == self.policy_or_defaults(),
    {
        RetryPolicy {
            limit: self.limit.unwrap_or(RetryLimit::Unlimited),
            base_delay: self.base_delay.unwrap_or(1000),
            delay_time: self.backoff_policy.unwrap_or(BackoffPolicy::Constant),
        }
    }

    /// Builds the policy, or reports every field that is unset.
    #[inline]
    pub fn try_build(self) -> (built: Result<RetryPolicy, RetryPolicyBuilderError>)
        ensures
            self.is_complete() ==> built == Ok::<RetryPolicy, RetryPolicyBuilderError>(
                self.chosen_policy(),
            ),
            !self.is_complete() ==> built == Err::<RetryPolicy, RetryPolicyBuilderError>(
                self.missing(),
            ),
    {
        let mut error = RetryPolicyBuilderError {
            missing_base_delay: false,
            missing_backoff_policy: false,
            missing_limit: false,
        };
        let mut missing_any = false;
        if self.limit.is_none() {
            error.missing_limit = true;
            missing_any = true;
        }
        if self.base_delay.is_none() {
            error.missing_base_delay = true;
            missing_any = true;
        }
        if self.backoff_policy.is_none() {
            error.missing_backoff_policy = true;
            missing_any = true;
        }
        if missing_any {
            return Err(error);
        }
        Ok(
            RetryPolicy {
                limit: self.limit.unwrap(),
                base_delay: self.base_delay.unwrap(),
                delay_time: self.backoff_policy.unwrap(),
            },
        )
    }
}

impl RetryPolicy {
    /// A builder with every field unset.
    pub fn builder() -> (builder: RetryPolicyBuilder)
        ensures
            builder.chosen_limit().is_none(),
            builder.chosen_base_delay().is_none(),
            builder.chosen_backoff().is_none(),
    {
        RetryPolicyBuilder::new()
    }
}

} // verus!
