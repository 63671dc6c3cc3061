//! A lazy slot for a deferred computation supplied at construction: the
//! fused wrapper over a two-state `Thunk`. The first writer drives the held
//! computation to completion (via the embedding program), commits its
//! output, and freezes the slot; later readers take the cached output.

use vstd::prelude::*;
use crate::async_fused::{AsyncFused, AsyncFusedEntry, FusedModel};
use crate::raw::AsyncRawFused;
use crate::thunk::Thunk;
use vstd::pervasive::unreached;

verus! {

/// A lazily-forced slot whose computation `F` with output `T` is fixed at
/// construction.
pub struct AsyncLazy<R, F, T> {
    fused: AsyncFused<R, Thunk<T, F>>,
}

impl<R: AsyncRawFused, F, T> AsyncLazy<R, F, T> {
    /// The slot always holds its thunk.
    pub closed spec fn wf(&self) -> bool {
        self.fused.wf()
    }

    /// The backing fused slot's state, thunk and all.
    pub closed spec fn model(&self) -> FusedModel<Thunk<T, F>> {
        self.fused.model()
    }

    /// The committed output, once the slot is frozen with a produced value.
    pub open spec fn output(&self) -> Option<T> {
        match self.model() {
            FusedModel::Read(Thunk::Value(v)) => Some(v),
            _ => None,
        }
    }

    /// A slot holding the not-yet-forced computation `f`.
    pub fn new(f: F) -> (r: Self)
        ensures
            r.wf(),
            r.model() matches FusedModel::Unlocked(t) && t matches Thunk::Future(c) && c@ == f,
    {
        AsyncLazy { fused: AsyncFused::new(Thunk::new(f)) }
    }

    /// Non-suspending attempt to become the forcing writer: `true` when the
    /// caller now holds the write side, `false` when another writer does or
    /// the slot is already frozen.
    pub fn try_force(&mut self) -> (r: bool)
        requires
            old(self).wf(),
            !(old(self).model() is Poison),
        ensures
            final (self).wf(),
            match old(self).model() {
                FusedModel::Unlocked(t) => r && final (self).model() == FusedModel::Write(t),
                FusedModel::Write(t) => !r && final (self).model() == FusedModel::Write(t),
                FusedModel::Read(t) => !r && final (self).model() == FusedModel::Read(t),
                FusedModel::Poison(_t) => false,
            },
    {
        match self.fused.try_write() {
            Some(AsyncFusedEntry::Write) => true,
            _ => false,
        }
    }

    /// Exclusive access to the held computation, for the embedding program
    /// to drive it.
    pub fn future_mut(&mut self) -> (r: &mut F)
        requires
            old(self).wf(),
            old(self).model() matches FusedModel::Write(t) && t is Future,
        ensures
            final (self).wf(),
            old(self).model() matches FusedModel::Write(t) && t matches Thunk::Future(c) && *r
                == c@,
            final (self).model() matches FusedModel::Write(t2) && t2 matches Thunk::Future(c2)
                && c2@ == *final (r),
    {
        self.fused.value_mut().future_mut()
    }

    /// The computation finished with `x`: cache the output, freeze the
    /// slot, and hand the cached value back.
    pub fn complete(&mut self, x: T) -> (r: &T)
        requires
            old(self).wf(),
            old(self).model() matches FusedModel::Write(t) && t is Future,
        ensures
            final (self).wf(),
            *r == x,
            final (self).model() == FusedModel::Read(Thunk::<T, F>::Value(x)),
    {
        self.fused.value_mut().complete(x);
        match self.fused.fuse().get() {
            Some(v) => v,
            None => unreached(),
        }
    }

    /// The committed output, if the slot has been frozen with one.
    pub fn get(&self) -> (r: Option<&T>)
        requires
            self.wf(),
            !(self.model() is Poison),
        ensures
            match self.output() {
                Some(v) => r matches Some(x) && *x == v,
                None => r is None,
            },
    {
        match self.fused.try_read() {
            Some(t) => t.get(),
            None => None,
        }
    }
}

} // verus!
