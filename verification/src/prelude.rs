//! The names that most users of the library want in scope.

pub use crate::backoff::{constant_backoff, exponential_backoff, linear_backoff, BackoffPolicy};
pub use crate::policy::{RetryLimit, RetryPolicy, RetryPolicyBuilder, RetryPolicyBuilderError};
pub use crate::retry_result::{
    RetryResult, RetryResult::Abort, RetryResult::Retry, RetryResult::Success,
};
pub use crate::retryer::{Phase, Replayed, Retryer, Step};
pub use crate::{abort, retry, success};
