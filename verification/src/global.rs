//! The default policy that is used where no policy is given.
//!
//! The store is a plain value. A program that wants one default for the
//! whole process keeps a single store behind a lock and hands out copies
//! of the policy, so that no lock is held while a run is under way.

use crate::policy::{default_policy, RetryPolicy};
use vstd::prelude::*;

verus! {

/// Holds the policy that is used where no policy is given.
#[derive(Debug)]
pub struct DefaultPolicyStore {
    current: RetryPolicy,
}

impl DefaultPolicyStore {
    /// The policy that the store holds.
    pub closed spec fn held(self) -> RetryPolicy {
        self.current
    }

    /// A store that holds the built-in default: no attempt limit, a base
    /// delay of 1000 ms, constant backoff.
    pub fn new() -> (store: Self)
        ensures
            store.held() == default_policy(),
    {
        DefaultPolicyStore { current: RetryPolicy::default() }
    }
}

/// Replaces the default policy. Every later read sees `policy`.
pub fn set_default_policy(store: &mut DefaultPolicyStore, policy: RetryPolicy)
    ensures
        final(store).held() == policy,
{
    store.current = policy;
}

/// Puts the built-in default back: no attempt limit, a base delay of
/// 1000 ms, constant backoff.
pub fn reset_default_policy(store: &mut DefaultPolicyStore)
    ensures
        final(store).held() == default_policy(),
{
    store.current = RetryPolicy::default();
}

/// A copy of the default policy, whole, for the caller to keep.
pub fn get_default_policy(store: &DefaultPolicyStore) -> (policy: RetryPolicy)
    ensures
        policy == store.held(),
{
    store.current
}

} // verus!
