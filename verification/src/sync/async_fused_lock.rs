//! The permit-based fused backend for cooperatively scheduled tasks: a
//! tri-state atomic word (uninit / init / poison) paired with a one-permit
//! semaphore. Holding the permit makes a task the writer; the permit is
//! forgotten on grant, restored only by a retry unlock, and permanently
//! withheld (the semaphore closed) by the terminal transitions. The only
//! suspension point is awaiting the permit, which the embedding program does
//! on the exposed semaphore; everything here is a synchronous snapshot.

use vstd::prelude::*;
use core::sync::atomic::AtomicUsize;
use core::sync::atomic::Ordering;
use tokio::sync::Semaphore;
use crate::error::PoisonError;
use crate::raw::RawOnceState;
use crate::sync::semaphore::{add_one_permit, close, semaphore_one, try_acquire_one,
    TryAcquireOutcome};

verus! {

pub const STATE_UNINIT: usize = 0;
pub const STATE_INIT: usize = 1;
pub const STATE_POISON: usize = 2;

/// Classify one observed tri-state word. Only the three named words are
/// ever stored; a word outside them is treated as poisoned rather than
/// trusted.
pub fn tri_of_word(w: usize) -> (r: Result<RawOnceState, PoisonError>)
    ensures
        w == STATE_UNINIT ==> r == Ok::<RawOnceState, PoisonError>(RawOnceState::Vacant),
        w == STATE_INIT ==> r == Ok::<RawOnceState, PoisonError>(RawOnceState::Occupied),
        w != STATE_UNINIT && w != STATE_INIT ==> r == Err::<RawOnceState, PoisonError>(
            PoisonError),
{
    if w == STATE_UNINIT {
        Ok(RawOnceState::Vacant)
    } else if w == STATE_INIT {
        Ok(RawOnceState::Occupied)
    } else {
        Err(PoisonError)
    }
}

/// The decision ladder after a permit attempt: how the permit outcome and
/// the re-checked word resolve a non-suspending write attempt. A granted
/// permit makes the caller the writer unless the word resolved meanwhile; a
/// closed semaphore means a terminal transition happened, so a still-vacant
/// word is the failure it implies; no permit means another writer holds the
/// slot.
pub fn after_permit_decision(permit: TryAcquireOutcome, recheck: Result<
    RawOnceState,
    PoisonError,
>) -> (r: Result<Option<RawOnceState>, PoisonError>)
    ensures
        permit is Acquired ==> match recheck {
            Ok(s) => r == Ok::<Option<RawOnceState>, PoisonError>(Some(s)),
            Err(e) => r == Err::<Option<RawOnceState>, PoisonError>(e),
        },
        permit is Closed ==> match recheck {
            Ok(RawOnceState::Occupied) => r == Ok::<Option<RawOnceState>, PoisonError>(Some(
                RawOnceState::Occupied)),
            Ok(RawOnceState::Vacant) => r == Err::<Option<RawOnceState>, PoisonError>(
                PoisonError),
            Err(e) => r == Err::<Option<RawOnceState>, PoisonError>(e),
        },
        permit is NoPermits ==> r == Ok::<Option<RawOnceState>, PoisonError>(None),
{
    match permit {
        TryAcquireOutcome::Acquired => match recheck {
            Ok(s) => Ok(Some(s)),
            Err(e) => Err(e),
        },
        TryAcquireOutcome::Closed => match recheck {
            Ok(RawOnceState::Occupied) => Ok(Some(RawOnceState::Occupied)),
            Ok(RawOnceState::Vacant) => Err(PoisonError),
            Err(e) => Err(e),
        },
        TryAcquireOutcome::NoPermits => Ok(None),
    }
}

/// The decision ladder resuming a suspending write path: how the awaited
/// permit's outcome and the re-checked word resolve the attempt.
pub fn resume_decision(acquired: bool, recheck: Result<RawOnceState, PoisonError>) -> (r: Result<
    RawOnceState,
    PoisonError,
>)
    ensures
        acquired ==> r == recheck,
        !acquired ==> match recheck {
            Ok(RawOnceState::Occupied) => r == Ok::<RawOnceState, PoisonError>(
                RawOnceState::Occupied),
            Ok(RawOnceState::Vacant) => r == Err::<RawOnceState, PoisonError>(PoisonError),
            Err(e) => r == Err::<RawOnceState, PoisonError>(e),
        },
{
    if acquired {
        recheck
    } else {
        match recheck {
            Ok(RawOnceState::Occupied) => Ok(RawOnceState::Occupied),
            // Closed while the word is still vacant: a terminal transition
            // failed the slot.
            Ok(RawOnceState::Vacant) => Err(PoisonError),
            Err(e) => Err(e),
        }
    }
}

/// Fast-path outcome of the suspending write path.
#[derive(Copy, Clone, Debug)]
pub enum WriteAttempt {
    /// Resolved without suspending.
    Ready(Result<RawOnceState, PoisonError>),
    /// The slot may be writable: the embedding program must await the
    /// semaphore's permit, then call `write_after_acquire`.
    MustAcquire,
}

/// The permit-based fused raw lock.
#[derive(Debug)]
pub struct AsyncRawFusedLock {
    state: AtomicUsize,
    semaphore: Semaphore,
}

impl AsyncRawFusedLock {
    /// A fresh lock, open for writers.
    pub fn unlocked() -> Self {
        AsyncRawFusedLock { state: AtomicUsize::new(STATE_UNINIT), semaphore: semaphore_one() }
    }

    /// A lock pre-seeded read-only.
    pub fn read_only() -> Self {
        AsyncRawFusedLock { state: AtomicUsize::new(STATE_INIT), semaphore: semaphore_one() }
    }

    /// A lock pre-seeded poisoned.
    pub fn poisoned() -> Self {
        AsyncRawFusedLock { state: AtomicUsize::new(STATE_POISON), semaphore: semaphore_one() }
    }

    /// The permit the embedding program awaits on the suspending path.
    pub fn semaphore(&self) -> &Semaphore {
        &self.semaphore
    }

    /// Non-suspending snapshot of the tri-state word.
    pub fn try_read_checked(&self) -> Result<RawOnceState, PoisonError> {
        tri_of_word(self.state.load(Ordering::Acquire))
    }

    /// Non-suspending attempt to become the writer: read the word, try the
    /// permit, and re-check, following the same ladder as the suspending
    /// path.
    pub fn try_write_checked(&self) -> Result<Option<RawOnceState>, PoisonError> {
        match self.try_read_checked() {
            Ok(RawOnceState::Occupied) => Ok(Some(RawOnceState::Occupied)),
            Err(e) => Err(e),
            Ok(RawOnceState::Vacant) => match try_acquire_one(&self.semaphore) {
                TryAcquireOutcome::NoPermits => Ok(None),
                permit => after_permit_decision(permit, self.try_read_checked()),
            },
        }
    }

    /// The non-suspending half of the suspending write path: resolve
    /// immediately if possible, else direct the embedding program to await
    /// the permit.
    pub fn write_attempt(&self) -> WriteAttempt {
        match self.try_read_checked() {
            Ok(RawOnceState::Occupied) => WriteAttempt::Ready(Ok(RawOnceState::Occupied)),
            Err(e) => WriteAttempt::Ready(Err(e)),
            Ok(RawOnceState::Vacant) => WriteAttempt::MustAcquire,
        }
    }

    /// Resumption after the awaited permit resolved. `acquired` reports
    /// whether a permit was granted (and must have been forgotten by the
    /// embedding program) or the semaphore was closed.
    pub fn write_after_acquire(&self, acquired: bool) -> Result<RawOnceState, PoisonError> {
        resume_decision(acquired, self.try_read_checked())
    }

    /// The writer releases the slot without freezing: the permit returns to
    /// the semaphore and the word stays uninit.
    pub fn unlock(&self) {
        add_one_permit(&self.semaphore);
    }

    /// The writer failed: word poisoned, semaphore closed so every waiter
    /// is refused.
    pub fn unlock_poison(&self) {
        self.state.store(STATE_POISON, Ordering::Release);
        close(&self.semaphore);
    }

    /// The writer freezes the slot: word init, semaphore closed so every
    /// waiter re-reads and finds the committed value.
    pub fn unlock_fuse(&self) {
        self.state.store(STATE_INIT, Ordering::Release);
        close(&self.semaphore);
    }
}

} // verus!
