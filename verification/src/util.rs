//! A value that is either held or borrowed.

use vstd::prelude::*;

verus! {

/// A `T` that its holder either owns or borrows from one who means to use
/// it again. Both forms read alike.
pub enum OwnedOrRef<'a, T> {
    Owned(T),
    Ref(&'a T),
}

impl<T> OwnedOrRef<'_, T> {
    /// The value, whoever owns it.
    pub open spec fn value(self) -> T {
        match self {
            OwnedOrRef::Owned(p) => p,
            OwnedOrRef::Ref(p) => *p,
        }
    }

    /// Borrows the value, whoever owns it.
    pub fn as_ref(&self) -> (r: &T)
        ensures
            *r == self.value(),
    {
        match self {
            OwnedOrRef::Owned(p) => p,
            OwnedOrRef::Ref(p) => p,
        }
    }
}

} // verus!
