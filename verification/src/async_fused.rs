//! The fused wrapper: like `Once`, but a writer need not terminate in a
//! committed value. The slot always holds a value; a writer may mutate it in
//! place, then either freeze it permanently with `fuse`, or release it back
//! to unlocked with `unlock`, leaving the current contents for the next
//! writer to inspect or overwrite. Panic handling is as for the plain
//! wrapper: an abandoning writer poisons the slot.

use vstd::prelude::*;
use crate::error::PoisonError;
use crate::raw::{AsyncRawFused, RawModel, RawOnceState};
use vstd::pervasive::unreached;

verus! {

/// Abstract state of a fused slot: the backend's four states, each carrying
/// the slot's current contents (the contents survive poisoning and are
/// recoverable by `into_inner`).
pub enum FusedModel<T> {
    Unlocked(T),
    Write(T),
    Read(T),
    Poison(T),
}

/// The slot after the writer freezes it: the contents become read-only.
pub open spec fn spec_fuse<T>(m: FusedModel<T>) -> FusedModel<T> {
    match m {
        FusedModel::Write(v) => FusedModel::Read(v),
        _ => m,
    }
}

/// The slot after the writer releases it without freezing: back to
/// unlocked, contents retained.
pub open spec fn spec_release<T>(m: FusedModel<T>) -> FusedModel<T> {
    match m {
        FusedModel::Write(v) => FusedModel::Unlocked(v),
        _ => m,
    }
}

/// What a reader observes: the contents exactly when the slot is frozen.
pub open spec fn spec_read<T>(m: FusedModel<T>) -> Option<T> {
    match m {
        FusedModel::Read(v) => Some(v),
        _ => None,
    }
}

/// A fused value is what readers see: freezing a slot whose writer left
/// contents `v` makes every later read observe exactly `v`.
pub proof fn lemma_fuse_visible<T>(v: T)
    ensures
        spec_read(spec_fuse(FusedModel::<T>::Write(v))) == Some(v),
{
}

/// Releasing without freezing neither publishes nor poisons: the slot
/// returns to unlocked with its contents retained for the next writer, and
/// readers still observe nothing.
pub proof fn lemma_release_retains<T>(v: T)
    ensures
        spec_release(FusedModel::<T>::Write(v)) == FusedModel::<T>::Unlocked(v),
        !(spec_release(FusedModel::<T>::Write(v)) is Poison),
        spec_read(spec_release(FusedModel::<T>::Write(v))) is None,
{
}

/// What a write attempt found: the caller became the writer, or the slot is
/// already frozen read-only.
#[derive(Copy, Clone, Eq, PartialEq, Structural, Debug)]
pub enum AsyncFusedEntry {
    Write,
    Read,
}

/// A rewritable-until-frozen value slot over a fused raw backend `R`.
pub struct AsyncFused<R, T> {
    raw: R,
    value: Option<T>,
}

impl<R: AsyncRawFused, T> AsyncFused<R, T> {
    /// The slot always holds a value.
    pub closed spec fn wf(&self) -> bool {
        self.value is Some
    }

    /// The abstract state of the slot.
    pub closed spec fn model(&self) -> FusedModel<T> {
        match self.raw.model() {
            RawModel::Uninit => FusedModel::Unlocked(self.value->0),
            RawModel::Locked => FusedModel::Write(self.value->0),
            RawModel::Init => FusedModel::Read(self.value->0),
            RawModel::Poison => FusedModel::Poison(self.value->0),
        }
    }

    /// The slot's current contents, whatever its state.
    pub open spec fn contents(&self) -> T {
        match self.model() {
            FusedModel::Unlocked(v) => v,
            FusedModel::Write(v) => v,
            FusedModel::Read(v) => v,
            FusedModel::Poison(v) => v,
        }
    }

    /// An unlocked slot holding `x`, open for writers.
    pub fn new(x: T) -> (r: Self)
        ensures
            r.wf(),
            r.model() == FusedModel::Unlocked(x),
    {
        AsyncFused { raw: R::unlocked(), value: Some(x) }
    }

    /// A slot pre-seeded frozen read-only with `x`.
    pub fn new_read(x: T) -> (r: Self)
        ensures
            r.wf(),
            r.model() == FusedModel::Read(x),
    {
        AsyncFused { raw: R::read_only(), value: Some(x) }
    }

    /// A slot pre-seeded poisoned, still carrying `x`.
    pub fn poisoned(x: T) -> (r: Self)
        ensures
            r.wf(),
            r.model() == FusedModel::Poison(x),
    {
        AsyncFused { raw: R::poisoned(), value: Some(x) }
    }

    /// Non-suspending attempt to become the writer. `Ok(None)` means another
    /// writer holds the slot (the attempt would block).
    pub fn try_write_checked(&mut self) -> (r: Result<Option<AsyncFusedEntry>, PoisonError>)
        requires
            old(self).wf(),
        ensures
            final (self).wf(),
            final (self).contents() == old(self).contents(),
            match old(self).model() {
                FusedModel::Unlocked(v) => r matches Ok(Some(AsyncFusedEntry::Write))
                    && final (self).model() == FusedModel::Write(v),
                FusedModel::Write(v) => r matches Ok(None)
                    && final (self).model() == FusedModel::Write(v),
                FusedModel::Read(v) => r matches Ok(Some(AsyncFusedEntry::Read))
                    && final (self).model() == FusedModel::Read(v),
                FusedModel::Poison(v) => r matches Err(PoisonError)
                    && final (self).model() == FusedModel::Poison(v),
            },
    {
        match self.raw.try_write_checked() {
            Ok(Some(RawOnceState::Vacant)) => Ok(Some(AsyncFusedEntry::Write)),
            Ok(Some(RawOnceState::Occupied)) => Ok(Some(AsyncFusedEntry::Read)),
            Ok(None) => Ok(None),
            Err(e) => Err(e),
        }
    }

    /// `try_write_checked` for callers that treat poison as a programming
    /// error; the poisoned input is excluded rather than reported.
    pub fn try_write(&mut self) -> (r: Option<AsyncFusedEntry>)
        requires
            old(self).wf(),
            !(old(self).model() is Poison),
        ensures
            final (self).wf(),
            final (self).contents() == old(self).contents(),
            match old(self).model() {
                FusedModel::Unlocked(v) => r == Some(AsyncFusedEntry::Write)
                    && final (self).model() == FusedModel::Write(v),
                FusedModel::Write(v) => r is None && final (self).model() == FusedModel::Write(v),
                FusedModel::Read(v) => r == Some(AsyncFusedEntry::Read)
                    && final (self).model() == FusedModel::Read(v),
                FusedModel::Poison(_v) => false,
            },
    {
        match self.try_write_checked() {
            Ok(e) => e,
            Err(_e) => None,
        }
    }

    /// Read the slot's contents: the writer's view while held, everyone's
    /// view once frozen.
    pub fn value(&self) -> (r: &T)
        requires
            self.wf(),
        ensures
            *r == self.contents(),
    {
        match &self.value {
            Some(v) => v,
            None => unreached(),
        }
    }

    /// Mutable access to the slot while holding the write side.
    pub fn value_mut(&mut self) -> (r: &mut T)
        requires
            old(self).wf(),
            old(self).model() is Write,
        ensures
            *r == old(self).contents(),
            final (self).wf(),
            final (self).model() == FusedModel::Write(*final (r)),
    {
        match &mut self.value {
            Some(v) => v,
            None => unreached(),
        }
    }

    /// Replace the slot's contents while holding the write side.
    pub fn set_value(&mut self, x: T)
        requires
            old(self).wf(),
            old(self).model() is Write,
        ensures
            final (self).wf(),
            final (self).model() == FusedModel::Write(x),
    {
        self.value = Some(x);
    }

    /// The writer freezes the slot: permanently read-only with its current
    /// contents.
    pub fn fuse(&mut self) -> (r: &T)
        requires
            old(self).wf(),
            old(self).model() is Write,
        ensures
            final (self).wf(),
            final (self).model() == FusedModel::Read(old(self).contents()),
            final (self).model() == spec_fuse(old(self).model()),
            *r == old(self).contents(),
    {
        self.raw.unlock_fuse();
        match &self.value {
            Some(v) => v,
            None => unreached(),
        }
    }

    /// The writer releases the slot without freezing: back to unlocked, the
    /// current contents retained for the next writer. A transient unlock,
    /// not a poisoning.
    pub fn unlock(&mut self)
        requires
            old(self).wf(),
            old(self).model() is Write,
        ensures
            final (self).wf(),
            final (self).model() == FusedModel::Unlocked(old(self).contents()),
            final (self).model() == spec_release(old(self).model()),
    {
        self.raw.unlock();
    }

    /// The writer failed (an unwinding initializer): the slot is terminally
    /// poisoned, contents retained for `into_inner`.
    pub fn abandon_poison(&mut self)
        requires
            old(self).wf(),
            old(self).model() is Write,
        ensures
            final (self).wf(),
            final (self).model() == FusedModel::Poison(old(self).contents()),
    {
        self.raw.unlock_poison();
    }

    /// Read the frozen value, or become the writer, rewrite the contents
    /// with `modify`, and freeze. The writer path runs `modify` exactly
    /// once.
    pub fn or_fuse<F: FnOnce(T) -> T>(&mut self, modify: F) -> (r: &T)
        requires
            old(self).wf(),
            old(self).model() matches FusedModel::Unlocked(v) ==> call_requires(modify, (v,)),
            old(self).model() is Unlocked || old(self).model() is Read,
        ensures
            final (self).wf(),
            match old(self).model() {
                FusedModel::Unlocked(v) => call_ensures(modify, (v,), *r)
                    && final (self).model() == FusedModel::Read(*r),
                FusedModel::Read(v) => *r == v && final (self).model() == FusedModel::Read(v),
                _ => false,
            },
    {
        match self.try_write() {
            Some(AsyncFusedEntry::Read) => self.value(),
            Some(AsyncFusedEntry::Write) => {
                let v = match self.value.take() {
                    Some(v) => v,
                    None => unreached(),
                };
                let v = modify(v);
                self.value = Some(v);
                self.fuse()
            },
            None => unreached(),
        }
    }

    /// `or_fuse` with poison reported instead of excluded.
    pub fn read_or_fuse_checked<F: FnOnce(T) -> T>(&mut self, modify: F) -> (r: Result<
        &T,
        PoisonError,
    >)
        requires
            old(self).wf(),
            old(self).model() matches FusedModel::Unlocked(v) ==> call_requires(modify, (v,)),
            !(old(self).model() is Write),
        ensures
            final (self).wf(),
            match old(self).model() {
                FusedModel::Unlocked(v) => r matches Ok(x) && call_ensures(modify, (v,), *x)
                    && final (self).model() == FusedModel::Read(*x),
                FusedModel::Read(v) => r matches Ok(x) && *x == v
                    && final (self).model() == FusedModel::Read(v),
                FusedModel::Poison(v) => r matches Err(PoisonError)
                    && final (self).model() == FusedModel::Poison(v),
                _ => false,
            },
    {
        match self.try_read_checked() {
            Err(e) => Err(e),
            Ok(_) => Ok(self.or_fuse(modify)),
        }
    }

    /// Non-suspending read: the frozen value, or `None` while the slot is
    /// still writable or held by a writer.
    pub fn try_read_checked(&self) -> (r: Result<Option<&T>, PoisonError>)
        requires
            self.wf(),
        ensures
            match self.model() {
                FusedModel::Unlocked(_v) => r matches Ok(None),
                FusedModel::Write(_v) => r matches Ok(None),
                FusedModel::Read(v) => r matches Ok(Some(x)) && *x == v,
                FusedModel::Poison(_v) => r matches Err(PoisonError),
            },
    {
        match self.raw.try_read_checked() {
            Ok(RawOnceState::Occupied) => match &self.value {
                Some(v) => Ok(Some(v)),
                None => unreached(),
            },
            Ok(RawOnceState::Vacant) => Ok(None),
            Err(e) => Err(e),
        }
    }

    /// `try_read_checked` for callers that treat poison as a programming
    /// error; the poisoned input is excluded rather than reported.
    pub fn try_read(&self) -> (r: Option<&T>)
        requires
            self.wf(),
            !(self.model() is Poison),
        ensures
            match self.model() {
                FusedModel::Read(v) => r matches Some(x) && *x == v,
                _ => r is None,
            },
    {
        match self.try_read_checked() {
            Ok(r) => r,
            Err(_e) => None,
        }
    }

    /// Consume the wrapper and return the slot's contents, whatever state it
    /// was in.
    pub fn into_inner(self) -> (r: T)
        requires
            self.wf(),
        ensures
            r == self.contents(),
    {
        match self.value {
            Some(v) => v,
            None => unreached(),
        }
    }
}

} // verus!
