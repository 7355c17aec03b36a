//! A retry engine: policies, attempt outcomes, backoff delays and the
//! state machine that drives one operation to a terminal result.

use vstd::prelude::*;

pub mod agent;
pub mod backoff;
pub mod global;
pub mod limit;
pub mod policy;
pub mod prelude;
pub mod retry_result;
pub mod retryer;
pub mod trace;
pub mod util;

pub use backoff::BackoffPolicy;
pub use policy::RetryPolicy;
pub use retry_result::RetryResult;

verus! {

/// Shorthand for `RetryResult::Success(value)`.
#[inline(always)]
pub fn success<T, E>(value: T) -> (r: RetryResult<T, E>)
    ensures
        r == RetryResult::<T, E>::Success(value),
{
    RetryResult::Success(value)
}

/// Shorthand for `RetryResult::Retry(error)`.
#[inline(always)]
pub fn retry<T, E>(error: E) -> (r: RetryResult<T, E>)
    ensures
        r == RetryResult::<T, E>::Retry(error),
{
    RetryResult::Retry(error)
}

/// Shorthand for `RetryResult::Abort(error)`.
#[inline(always)]
pub fn abort<T, E>(error: E) -> (r: RetryResult<T, E>)
    ensures
        r == RetryResult::<T, E>::Abort(error),
{
    RetryResult::Abort(error)
}

} // verus!
