//! Deferred value production inside a guarded slot: not started, producing
//! (a computation is held, to be driven to completion by the embedding
//! program), or produced. Exactly one consumer — the wrapper's writer, which
//! excludes concurrency — drives a thunk; when the held computation
//! finishes, its output is handed back through `complete`.

use vstd::prelude::*;
use crate::mut_cell::MutCell;
use vstd::pervasive::unreached;

verus! {

/// A three-state thunk: nothing yet, a held computation, or its output.
pub enum OptionThunk<T, F> {
    Uninit,
    Future(F),
    Value(T),
}

impl<T, F> OptionThunk<T, F> {
    /// Not started.
    pub fn new() -> (r: Self)
        ensures
            r is Uninit,
    {
        OptionThunk::Uninit
    }

    /// Already produced: starts at `Value(x)`.
    pub fn new_value(x: T) -> (r: Self)
        ensures
            r == OptionThunk::<T, F>::Value(x),
    {
        OptionThunk::Value(x)
    }

    /// Producing from the start: holds `x`.
    pub fn new_future(x: F) -> (r: Self)
        ensures
            r == OptionThunk::<T, F>::Future(x),
    {
        OptionThunk::Future(x)
    }

    /// Start producing: only a not-started thunk may be started, exactly
    /// once.
    pub fn start(&mut self, f: F)
        requires
            (*old(self)) is Uninit,
        ensures
            *final (self) == OptionThunk::<T, F>::Future(f),
    {
        match self {
            OptionThunk::Uninit => {
                *self = OptionThunk::Future(f);
            },
            _ => unreached(),
        }
    }

    /// Whether production has started (or finished).
    pub fn started(&self) -> (r: bool)
        ensures
            r == !(self is Uninit),
    {
        match self {
            OptionThunk::Uninit => false,
            OptionThunk::Future(_) => true,
            OptionThunk::Value(_) => true,
        }
    }

    /// Exclusive access to the held computation, for the embedding program
    /// to drive it.
    pub fn future_mut(&mut self) -> (r: &mut F)
        requires
            (*old(self)) is Future,
        ensures
            (*old(self)) matches OptionThunk::Future(f) && *r == f,
            *final (self) == OptionThunk::<T, F>::Future(*final (r)),
    {
        match self {
            OptionThunk::Future(f) => f,
            _ => unreached(),
        }
    }

    /// The held computation finished with `x`: the thunk transitions to
    /// produced and caches the output.
    pub fn complete(&mut self, x: T)
        requires
            (*old(self)) is Future,
        ensures
            *final (self) == OptionThunk::<T, F>::Value(x),
    {
        *self = OptionThunk::Value(x);
    }

    /// The cached output, if production has finished.
    pub fn get(&self) -> (r: Option<&T>)
        ensures
            match r {
                Some(x) => self matches OptionThunk::Value(v) && *x == v,
                None => !(self is Value),
            },
    {
        match self {
            OptionThunk::Future(_) => None,
            OptionThunk::Value(x) => Some(x),
            OptionThunk::Uninit => None,
        }
    }
}

/// A two-state thunk: always either producing or produced, so consuming it
/// needs no start transition.
pub enum Thunk<T, F> {
    Future(MutCell<F>),
    Value(T),
}

impl<T, F> Thunk<T, F> {
    /// Producing from the start: holds `x`.
    pub fn new(x: F) -> (r: Self)
        ensures
            r matches Thunk::Future(c) && c@ == x,
    {
        Thunk::Future(MutCell::new(x))
    }

    /// Already produced: starts at `Value(x)`.
    pub fn new_value(x: T) -> (r: Self)
        ensures
            r == Thunk::<T, F>::Value(x),
    {
        Thunk::Value(x)
    }

    /// Exclusive access to the held computation, for the embedding program
    /// to drive it.
    pub fn future_mut(&mut self) -> (r: &mut F)
        requires
            (*old(self)) is Future,
        ensures
            (*old(self)) matches Thunk::Future(c) && *r == c@,
            (*final (self)) matches Thunk::Future(c2) && c2@ == *final (r),
    {
        match self {
            Thunk::Future(c) => c.get_mut(),
            _ => unreached(),
        }
    }

    /// The held computation finished with `x`: cache the output.
    pub fn complete(&mut self, x: T)
        requires
            (*old(self)) is Future,
        ensures
            *final (self) == Thunk::<T, F>::Value(x),
    {
        *self = Thunk::Value(x);
    }

    /// The cached output, if production has finished.
    pub fn get(&self) -> (r: Option<&T>)
        ensures
            match r {
                Some(x) => self matches Thunk::Value(v) && *x == v,
                None => self is Future,
            },
    {
        match self {
            Thunk::Future(_) => None,
            Thunk::Value(x) => Some(x),
        }
    }
}

} // verus!
