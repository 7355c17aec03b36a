//! The attempt limit and how an attempt count compares with it.

use std::cmp::Ordering;
use vstd::prelude::*;

verus! {

/// The greatest number of attempts a run may make.
#[derive(Debug, Clone, Copy)]
pub enum RetryLimit {
    Unlimited,
    Limited(u64),
}

impl RetryLimit {
    /// True when a run that has made `count` attempts may make another.
    /// No count ever reaches `Unlimited`.
    pub open spec fn admits(self, count: nat) -> bool {
        match self {
            RetryLimit::Unlimited => true,
            RetryLimit::Limited(n) => count < n,
        }
    }

    /// How an attempt count stands to this limit: every count is `Less`
    /// than `Unlimited`, and stands to `Limited(n)` as it stands to `n`.
    pub open spec fn ordering_of(self, count: u64) -> Ordering {
        match self {
            RetryLimit::Unlimited => Ordering::Less,
            RetryLimit::Limited(n) => if count < n {
                Ordering::Less
            } else if count == n {
                Ordering::Equal
            } else {
                Ordering::Greater
            },
        }
    }
}

impl Default for RetryLimit {
    fn default() -> (limit: Self)
        ensures
            limit == RetryLimit::Unlimited,
    {
        RetryLimit::Unlimited
    }
}

impl PartialEq for RetryLimit {
    fn eq(&self, other: &Self) -> (r: bool) {
        match (self, other) {
            (RetryLimit::Unlimited, RetryLimit::Unlimited) => true,
            (RetryLimit::Limited(a), RetryLimit::Limited(b)) => *a == *b,
            _ => false,
        }
    }
}

impl vstd::std_specs::cmp::PartialEqSpecImpl for RetryLimit {
    open spec fn obeys_eq_spec() -> bool {
        true
    }

    open spec fn eq_spec(&self, other: &Self) -> bool {
        *self == *other
    }
}

impl PartialEq<u64> for RetryLimit {
    /// A count equals a limit when the limit is finite and is that count.
    fn eq(&self, other: &u64) -> (r: bool) {
        match self {
            RetryLimit::Unlimited => false,
            RetryLimit::Limited(a) => *a == *other,
        }
    }
}

impl vstd::std_specs::cmp::PartialEqSpecImpl<u64> for RetryLimit {
    open spec fn obeys_eq_spec() -> bool {
        true
    }

    open spec fn eq_spec(&self, other: &u64) -> bool {
        *self == RetryLimit::Limited(*other)
    }
}

impl PartialOrd<u64> for RetryLimit {
    /// Orders the count against the limit.
    fn partial_cmp(&self, count: &u64) -> (r: Option<Ordering>) {
        match self {
            RetryLimit::Unlimited => Some(Ordering::Less),
            RetryLimit::Limited(lim) => {
                if *count < *lim {
                    Some(Ordering::Less)
                } else if *count == *lim {
                    Some(Ordering::Equal)
                } else {
                    Some(Ordering::Greater)
                }
            },
        }
    }
}

impl vstd::std_specs::cmp::PartialOrdSpecImpl<u64> for RetryLimit {
    open spec fn obeys_partial_cmp_spec() -> bool {
        true
    }

    open spec fn partial_cmp_spec(&self, count: &u64) -> Option<Ordering> {
        Some(self.ordering_of(*count))
    }
}

impl PartialEq<RetryLimit> for u64 {
    fn eq(&self, other: &RetryLimit) -> (r: bool) {
        other.eq(self)
    }
}

impl vstd::std_specs::cmp::PartialEqSpecImpl<RetryLimit> for u64 {
    open spec fn obeys_eq_spec() -> bool {
        true
    }

    open spec fn eq_spec(&self, other: &RetryLimit) -> bool {
        *other == RetryLimit::Limited(*self)
    }
}

impl PartialOrd<RetryLimit> for u64 {
    /// Orders the count against the limit.
    fn partial_cmp(&self, other: &RetryLimit) -> (r: Option<Ordering>) {
        other.partial_cmp(self)
    }
}

impl vstd::std_specs::cmp::PartialOrdSpecImpl<RetryLimit> for u64 {
    open spec fn obeys_partial_cmp_spec() -> bool {
        true
    }

    open spec fn partial_cmp_spec(&self, other: &RetryLimit) -> Option<Ordering> {
        Some(other.ordering_of(*self))
    }
}

} // verus!
