//! A by-value cell: plain exclusive ownership with explicit accessors, used
//! by `Thunk` to hold the deferred computation.

use vstd::prelude::*;

verus! {

/// A transparent single-value container.
pub struct MutCell<T>(T);

impl<T> MutCell<T> {
    /// The contained value.
    pub closed spec fn view(&self) -> T {
        self.0
    }

    /// Wrap a value.
    pub fn new(x: T) -> (r: Self)
        ensures
            r@ == x,
    {
        MutCell(x)
    }

    /// Unwrap the value.
    pub fn into_inner(self) -> (r: T)
        ensures
            r == self@,
    {
        self.0
    }

    /// Exclusive access to the value in place.
    pub fn get_mut(&mut self) -> (r: &mut T)
        ensures
            *r == old(self)@,
            final (self)@ == *final (r),
    {
        &mut self.0
    }

    /// Shared access to the value.
    pub fn get_ref(&self) -> (r: &T)
        ensures
            *r == self@,
    {
        &self.0
    }
}

impl<T> From<T> for MutCell<T> {
    fn from(value: T) -> (r: Self) {
        MutCell(value)
    }
}

impl<T> vstd::std_specs::convert::FromSpecImpl<T> for MutCell<T> {
    open spec fn obeys_from_spec() -> bool {
        true
    }

    closed spec fn from_spec(value: T) -> Self {
        MutCell(value)
    }
}

} // verus!
