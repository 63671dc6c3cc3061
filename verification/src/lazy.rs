//! A lazy value over the plain once-slot: remembers an initializer closure
//! and runs it on first access.

use vstd::prelude::*;
use crate::once::{Once, OnceEntry, OnceModel};
use crate::raw::{BlockingRawOnce, RawOnce};
use vstd::pervasive::unreached;

verus! {

/// A value initialized on first access by a closure supplied at
/// construction.
pub struct Lazy<R, T, F> {
    once: Once<R, T>,
    init: Option<F>,
}

impl<R: RawOnce, T, F: FnOnce() -> T> Lazy<R, T, F> {
    /// The initializer is still held whenever the slot has not been forced.
    pub closed spec fn wf(&self) -> bool {
        self.once.wf() && (self.once.model() is Uninit ==> self.init is Some)
    }

    /// The state of the backing once-slot.
    pub closed spec fn slot(&self) -> OnceModel<T> {
        self.once.model()
    }

    /// The initializer, until it has been consumed.
    pub closed spec fn initializer(&self) -> Option<F> {
        self.init
    }

    /// A not-yet-forced lazy value with initializer `f`.
    pub fn new(f: F) -> (r: Self)
        ensures
            r.wf(),
            r.slot() is Uninit,
            r.initializer() == Some(f),
    {
        Lazy { once: Once::new(), init: Some(f) }
    }
}

impl<R: BlockingRawOnce, T, F: FnOnce() -> T> Lazy<R, T, F> {
    /// Force the value: the first call runs the initializer exactly once
    /// and commits its output; every later call returns that same value.
    pub fn get(&mut self) -> (r: &T)
        requires
            old(self).wf(),
            !(old(self).slot() is Poison),
            !(old(self).slot() is Locked),
            old(self).slot() is Uninit ==> call_requires(old(self).initializer()->0, ()),
        ensures
            final (self).wf(),
            match old(self).slot() {
                OnceModel::Uninit => call_ensures(old(self).initializer()->0, (), *r)
                    && final (self).slot() == OnceModel::Init(*r),
                OnceModel::Init(v) => *r == v && final (self).slot() == OnceModel::Init(v),
                _ => false,
            },
    {
        match self.once.try_lock() {
            Some(OnceEntry::Occupied) => match self.once.try_get() {
                Some(v) => v,
                None => unreached(),
            },
            Some(OnceEntry::Vacant) => {
                let f = match self.init.take() {
                    Some(f) => f,
                    None => unreached(),
                };
                let v = f();
                self.once.init(v)
            },
            None => unreached(),
        }
    }
}

} // verus!
