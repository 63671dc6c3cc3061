//! A once-slot for a deferred computation: pairs the fused wrapper with an
//! `OptionThunk`, so the first caller to find the slot vacant starts the
//! computation, the embedding program drives it to completion exactly once,
//! and the committed output is then read forever. A caller that finds a
//! started-but-unfinished thunk resumes driving it rather than starting a
//! second computation.

use vstd::prelude::*;
use crate::async_fused::{AsyncFused, AsyncFusedEntry, FusedModel};
use crate::raw::AsyncRawFused;
use crate::thunk::OptionThunk;
use vstd::pervasive::unreached;

verus! {

/// What a lock attempt found: the caller must start the computation, or
/// production is already under way / finished and the caller only awaits the
/// output.
#[derive(Copy, Clone, Eq, PartialEq, Structural, Debug)]
pub enum AsyncOnceEntry {
    Vacant,
    Occupied,
}

/// A once-slot whose value is produced by a deferred computation of type
/// `F` with output `T`.
pub struct AsyncOnce<R, F, T> {
    fused: AsyncFused<R, OptionThunk<T, F>>,
}

impl<R: AsyncRawFused, F, T> AsyncOnce<R, F, T> {
    /// The slot always holds its thunk.
    pub closed spec fn wf(&self) -> bool {
        self.fused.wf()
    }

    /// The backing fused slot's state, thunk and all.
    pub closed spec fn model(&self) -> FusedModel<OptionThunk<T, F>> {
        self.fused.model()
    }

    /// The committed output, once the slot is frozen with a produced value.
    pub open spec fn output(&self) -> Option<T> {
        match self.model() {
            FusedModel::Read(OptionThunk::Value(v)) => Some(v),
            _ => None,
        }
    }

    /// An empty slot: no computation started.
    pub fn new() -> (r: Self)
        ensures
            r.wf(),
            r.model() == FusedModel::Unlocked(OptionThunk::<T, F>::Uninit),
    {
        AsyncOnce { fused: AsyncFused::new(OptionThunk::new()) }
    }

    /// A slot poisoned from the start.
    pub fn poisoned() -> (r: Self)
        ensures
            r.wf(),
            r.model() == FusedModel::Poison(OptionThunk::<T, F>::Uninit),
    {
        AsyncOnce { fused: AsyncFused::poisoned(OptionThunk::new()) }
    }

    /// Classify a write-side entry: a writer holding a never-started thunk
    /// is vacant and must `start`; anything else already has production
    /// under way or finished.
    fn raw_lock(entry: AsyncFusedEntry, started: bool) -> (r: AsyncOnceEntry)
        ensures
            r == AsyncOnceEntry::Vacant <==> (entry == AsyncFusedEntry::Write && !started),
    {
        match entry {
            AsyncFusedEntry::Write => if started {
                AsyncOnceEntry::Occupied
            } else {
                AsyncOnceEntry::Vacant
            },
            AsyncFusedEntry::Read => AsyncOnceEntry::Occupied,
        }
    }

    /// Non-suspending attempt to read or become the producer. `None` means
    /// another writer holds the slot.
    pub fn try_lock(&mut self) -> (r: Option<AsyncOnceEntry>)
        requires
            old(self).wf(),
            !(old(self).model() is Poison),
        ensures
            final (self).wf(),
            match old(self).model() {
                FusedModel::Unlocked(t) => final (self).model() == FusedModel::Write(t) && (
                r == Some(AsyncOnceEntry::Vacant) <==> t is Uninit) && (r == Some(
                    AsyncOnceEntry::Occupied) <==> !(t is Uninit)),
                FusedModel::Write(t) => r is None && final (self).model() == FusedModel::Write(t),
                FusedModel::Read(t) => r == Some(AsyncOnceEntry::Occupied)
                    && final (self).model() == FusedModel::Read(t),
                FusedModel::Poison(_t) => false,
            },
    {
        match self.fused.try_write() {
            None => None,
            Some(AsyncFusedEntry::Read) => Some(AsyncOnceEntry::Occupied),
            Some(AsyncFusedEntry::Write) => {
                let started = self.fused.value().started();
                Some(Self::raw_lock(AsyncFusedEntry::Write, started))
            },
        }
    }

    /// The vacant caller supplies the computation: exactly one `start` per
    /// slot lifetime.
    pub fn start(&mut self, f: F)
        requires
            old(self).wf(),
            old(self).model() == FusedModel::Write(OptionThunk::<T, F>::Uninit),
        ensures
            final (self).wf(),
            final (self).model() == FusedModel::Write(OptionThunk::<T, F>::Future(f)),
    {
        self.fused.value_mut().start(f);
    }

    /// As `start`, for a computation that the embedding program keeps
    /// driving even if the caller that started it is cancelled.
    pub fn start_detached(&mut self, f: F)
        requires
            old(self).wf(),
            old(self).model() == FusedModel::Write(OptionThunk::<T, F>::Uninit),
        ensures
            final (self).wf(),
            final (self).model() == FusedModel::Write(OptionThunk::<T, F>::Future(f)),
    {
        self.fused.value_mut().start(f);
    }

    /// Exclusive access to the running computation, for the embedding
    /// program to drive it.
    pub fn future_mut(&mut self) -> (r: &mut F)
        requires
            old(self).wf(),
            old(self).model() matches FusedModel::Write(t) && t is Future,
        ensures
            final (self).wf(),
            old(self).model() matches FusedModel::Write(t) && t matches OptionThunk::Future(f)
                && *r == f,
            final (self).model() == FusedModel::Write(OptionThunk::<T, F>::Future(*final (r))),
    {
        self.fused.value_mut().future_mut()
    }

    /// The computation finished with `x`: cache the output, still holding
    /// the write side.
    pub fn complete(&mut self, x: T)
        requires
            old(self).wf(),
            old(self).model() matches FusedModel::Write(t) && t is Future,
        ensures
            final (self).wf(),
            final (self).model() == FusedModel::Write(OptionThunk::<T, F>::Value(x)),
    {
        self.fused.value_mut().complete(x);
    }

    /// Freeze the produced output: the slot becomes read-only and every
    /// later reader sees this value.
    pub fn commit(&mut self) -> (r: &T)
        requires
            old(self).wf(),
            old(self).model() matches FusedModel::Write(t) && t is Value,
        ensures
            final (self).wf(),
            old(self).model() matches FusedModel::Write(t) && t matches OptionThunk::Value(v) && *r
                == v && final (self).model() == FusedModel::Read(OptionThunk::<T, F>::Value(v)),
    {
        match self.fused.fuse().get() {
            Some(v) => v,
            None => unreached(),
        }
    }

    /// The committed output, if the slot has been frozen with one.
    pub fn get(&self) -> (r: Option<&T>)
        requires
            self.wf(),
            !(self.model() is Poison),
        ensures
            match self.output() {
                Some(v) => r matches Some(x) && *x == v,
                None => r is None,
            },
    {
        match self.fused.try_read() {
            Some(t) => t.get(),
            None => None,
        }
    }
}

impl<R: AsyncRawFused, F, T> Default for AsyncOnce<R, F, T> {
    /// The default slot is empty, with no computation started.
    fn default() -> (r: Self)
        ensures
            r.wf(),
            r.model() == FusedModel::Unlocked(OptionThunk::<T, F>::Uninit),
    {
        AsyncOnce::new()
    }
}

} // verus!
