//! The three-way outcome of a single attempt.

use vstd::prelude::*;

verus! {

/// What one attempt of an operation produced.
///
/// `Success` and `Abort` are terminal. `Retry` is a transient failure: it
/// carries the error that is surfaced only when the attempt budget runs out.
#[derive(Debug)]
pub enum RetryResult<T, E> {
    Success(T),
    Retry(E),
    Abort(E),
}

impl<T, E> RetryResult<T, E> {
    /// The two-state result this outcome collapses to once no further
    /// attempt will be made.
    pub open spec fn as_result(self) -> Result<T, E> {
        match self {
            RetryResult::Success(t) => Ok(t),
            RetryResult::Retry(e) => Err(e),
            RetryResult::Abort(e) => Err(e),
        }
    }

    /// True of the outcomes after which no attempt follows, whatever the
    /// remaining budget.
    pub open spec fn is_terminal(self) -> bool {
        !(self is Retry)
    }

    /// Tells whether this outcome carries a value.
    pub fn is_success(&self) -> (b: bool)
        ensures
            b == (*self is Success),
    {
        match self {
            RetryResult::Success(_) => true,
            _ => false,
        }
    }

    /// Tells whether this outcome asks for another attempt.
    pub fn is_retry(&self) -> (b: bool)
        ensures
            b == (*self is Retry),
    {
        match self {
            RetryResult::Retry(_) => true,
            _ => false,
        }
    }

    /// Tells whether this outcome forbids any further attempt.
    pub fn is_abort(&self) -> (b: bool)
        ensures
            b == (*self is Abort),
    {
        match self {
            RetryResult::Abort(_) => true,
            _ => false,
        }
    }
}

impl<T, E> From<RetryResult<T, E>> for Result<T, E> {
    /// Collapses an outcome to a plain result: a value becomes `Ok`, both
    /// kinds of failure become `Err` with the error they carry.
    fn from(r: RetryResult<T, E>) -> (res: Self) {
        match r {
            RetryResult::Success(t) => Ok(t),
            RetryResult::Abort(e) => Err(e),
            RetryResult::Retry(e) => Err(e),
        }
    }
}

impl<T, E> vstd::std_specs::convert::FromSpecImpl<RetryResult<T, E>> for Result<T, E> {
    open spec fn obeys_from_spec() -> bool {
        true
    }

    open spec fn from_spec(r: RetryResult<T, E>) -> Self {
        r.as_result()
    }
}

} // verus!
