//! The contract every raw backend implements: states Uninit / Locked / Init /
//! Poison, non-suspending probes, and the commit transitions performed when a
//! writer resolves the slot.

use vstd::prelude::*;
use crate::error::{LockError, PoisonError};

verus! {

/// What a probe reports: the slot already holds a readable value, or it does
/// not (the caller may have become the writer).
#[derive(Copy, Clone, Eq, PartialEq, Structural, Debug)]
pub enum RawOnceState {
    Occupied,
    Vacant,
}

/// The abstract state of a raw backend. The fused backends read the same four
/// states as unlocked / write-locked / read-only / poisoned.
#[derive(Copy, Clone, Eq, PartialEq, Structural, Debug)]
pub enum RawModel {
    Uninit,
    Locked,
    Init,
    Poison,
}

/// A raw once lock: written at most once, then read forever. Constants-like
/// constructors give the three seedable states; `try_*` probe without
/// suspending; the `unlock_*` transitions are performed by whoever holds the
/// write side (abstract state `Locked`).
pub trait RawOnce: Sized {
    /// The abstract state this backend is in.
    spec fn model(&self) -> RawModel;

    /// A fresh, never-written backend.
    fn uninit() -> (r: Self)
        ensures
            r.model() is Uninit,
    ;

    /// A backend pre-seeded as already initialized.
    fn initialized() -> (r: Self)
        ensures
            r.model() is Init,
    ;

    /// A backend pre-seeded as poisoned.
    fn poisoned() -> (r: Self)
        ensures
            r.model() is Poison,
    ;

    /// Non-suspending attempt to become the sole writer. Reports `Occupied`
    /// if already initialized, `None` if another writer holds the slot, and
    /// `Vacant` after making the caller the writer.
    fn try_lock_checked(&mut self) -> (r: Result<Option<RawOnceState>, PoisonError>)
        ensures
            match old(self).model() {
                RawModel::Uninit => r matches Ok(Some(RawOnceState::Vacant))
                    && final (self).model() is Locked,
                RawModel::Locked => r matches Ok(None) && *final (self) == *old(self),
                RawModel::Init => r matches Ok(Some(RawOnceState::Occupied))
                    && *final (self) == *old(self),
                RawModel::Poison => r matches Err(PoisonError) && *final (self) == *old(self),
            },
    ;

    /// Non-suspending snapshot that never becomes the writer. Reports
    /// `Vacant` even while another writer holds the slot.
    fn try_get_checked(&self) -> (r: Result<RawOnceState, PoisonError>)
        ensures
            match self.model() {
                RawModel::Uninit => r matches Ok(RawOnceState::Vacant),
                RawModel::Locked => r matches Ok(RawOnceState::Vacant),
                RawModel::Init => r matches Ok(RawOnceState::Occupied),
                RawModel::Poison => r matches Err(PoisonError),
            },
    ;

    /// The writer abandons the slot without committing a value; the plain
    /// wrapper treats that as a broken initializer contract and the backend
    /// returns to `Uninit` only so a fused wrapper may retry.
    fn unlock_nopoison(&mut self)
        requires
            old(self).model() is Locked,
        ensures
            final (self).model() is Uninit,
    ;

    /// The writer commits a value; the slot is readable forever after.
    fn unlock_init(&mut self)
        requires
            old(self).model() is Locked,
        ensures
            final (self).model() is Init,
    ;

    /// The writer failed; the slot is terminally poisoned.
    fn unlock_poison(&mut self)
        requires
            old(self).model() is Locked,
        ensures
            final (self).model() is Poison,
    ;
}

/// A raw once lock whose contended path resolves without suspending the
/// caller: a lock attempt that finds another writer fails with `CycleError`
/// (on a single execution context, a held lock can only be held by the
/// caller's own stack).
pub trait BlockingRawOnce: RawOnce {
    /// Become the writer or report why not; never suspends.
    fn lock_checked(&mut self) -> (r: Result<RawOnceState, LockError>)
        ensures
            match old(self).model() {
                RawModel::Uninit => r matches Ok(RawOnceState::Vacant)
                    && final (self).model() is Locked,
                RawModel::Locked => r matches Err(LockError::CycleError)
                    && *final (self) == *old(self),
                RawModel::Init => r matches Ok(RawOnceState::Occupied)
                    && *final (self) == *old(self),
                RawModel::Poison => r matches Err(LockError::PoisonError)
                    && *final (self) == *old(self),
            },
    ;

    /// Read-only probe with the lock-style error type.
    fn get_checked(&self) -> (r: Result<RawOnceState, LockError>)
        ensures
            match self.model() {
                RawModel::Uninit => r matches Ok(RawOnceState::Vacant),
                RawModel::Locked => r matches Ok(RawOnceState::Vacant),
                RawModel::Init => r matches Ok(RawOnceState::Occupied),
                RawModel::Poison => r matches Err(LockError::PoisonError),
            },
    ;
}

/// A raw backend for the fused wrapper: the same four abstract states, but a
/// writer may release the slot back to `Uninit` without poisoning it
/// (`unlock`), or freeze it permanently (`unlock_fuse`).
pub trait AsyncRawFused: Sized {
    /// The abstract state this backend is in.
    spec fn model(&self) -> RawModel;

    /// A fresh backend with the slot open for writing.
    fn unlocked() -> (r: Self)
        ensures
            r.model() is Uninit,
    ;

    /// A backend pre-seeded read-only.
    fn read_only() -> (r: Self)
        ensures
            r.model() is Init,
    ;

    /// A backend pre-seeded as poisoned.
    fn poisoned() -> (r: Self)
        ensures
            r.model() is Poison,
    ;

    /// Non-suspending attempt to become the writer.
    fn try_write_checked(&mut self) -> (r: Result<Option<RawOnceState>, PoisonError>)
        ensures
            match old(self).model() {
                RawModel::Uninit => r matches Ok(Some(RawOnceState::Vacant))
                    && final (self).model() is Locked,
                RawModel::Locked => r matches Ok(None) && *final (self) == *old(self),
                RawModel::Init => r matches Ok(Some(RawOnceState::Occupied))
                    && *final (self) == *old(self),
                RawModel::Poison => r matches Err(PoisonError) && *final (self) == *old(self),
            },
    ;

    /// Non-suspending snapshot; `Vacant` while unlocked or write-locked.
    fn try_read_checked(&self) -> (r: Result<RawOnceState, PoisonError>)
        ensures
            match self.model() {
                RawModel::Uninit => r matches Ok(RawOnceState::Vacant),
                RawModel::Locked => r matches Ok(RawOnceState::Vacant),
                RawModel::Init => r matches Ok(RawOnceState::Occupied),
                RawModel::Poison => r matches Err(PoisonError),
            },
    ;

    /// The writer releases the slot without freezing it: a transient unlock,
    /// not a poisoning. The next writer sees `Uninit`.
    fn unlock(&mut self)
        requires
            old(self).model() is Locked,
        ensures
            final (self).model() is Uninit,
    ;

    /// The writer failed; the slot is terminally poisoned.
    fn unlock_poison(&mut self)
        requires
            old(self).model() is Locked,
        ensures
            final (self).model() is Poison,
    ;

    /// The writer freezes the slot permanently: read-only from now on.
    fn unlock_fuse(&mut self)
        requires
            old(self).model() is Locked,
        ensures
            final (self).model() is Init,
    ;
}

} // verus!
