//! A boxed value intended for use as a process-wide constant. Where
//! compile-time allocation is unavailable, the box is built by an ordinary
//! constructor at first use and treated as immutable thereafter; pairing it
//! with a once-slot gives the same observable behavior as a static.

use vstd::prelude::*;

verus! {

/// An owned, heap-allocated value treated as constant after construction.
#[derive(Debug)]
pub struct ConstBox<T>(Box<T>);

impl<T> ConstBox<T> {
    /// The boxed value.
    pub closed spec fn view(&self) -> T {
        *self.0
    }

    /// Box a value.
    pub fn new(x: T) -> (r: Self)
        ensures
            r@ == x,
    {
        ConstBox(Box::new(x))
    }

    /// Read the boxed value.
    pub fn get_ref(&self) -> (r: &T)
        ensures
            *r == self@,
    {
        &self.0
    }

    /// Give the boxed value up.
    pub fn into_inner(self) -> (r: T)
        ensures
            r == self@,
    {
        *self.0
    }
}

} // verus!
