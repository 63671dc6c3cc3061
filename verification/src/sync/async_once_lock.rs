//! The permit-based once backend for cooperatively scheduled tasks: the
//! same tri-state word and one-permit semaphore as the fused flavor, with
//! the once wrapper's transition names. A suspending read path additionally
//! waits for the writer by acquiring and immediately returning the permit.

use vstd::prelude::*;
use core::sync::atomic::AtomicUsize;
use core::sync::atomic::Ordering;
use tokio::sync::Semaphore;
use crate::error::PoisonError;
use crate::raw::RawOnceState;
use crate::sync::async_fused_lock::{after_permit_decision, resume_decision, tri_of_word,
    WriteAttempt, STATE_INIT, STATE_POISON, STATE_UNINIT};
use crate::sync::semaphore::{add_one_permit, close, semaphore_one, try_acquire_one,
    TryAcquireOutcome};

verus! {

/// The permit-based once raw lock.
#[derive(Debug)]
pub struct AsyncRawOnceLock {
    state: AtomicUsize,
    semaphore: Semaphore,
}

impl AsyncRawOnceLock {
    /// A fresh lock, open for one writer.
    pub fn uninit() -> Self {
        AsyncRawOnceLock { state: AtomicUsize::new(STATE_UNINIT), semaphore: semaphore_one() }
    }

    /// A lock pre-seeded initialized.
    pub fn initialized() -> Self {
        AsyncRawOnceLock { state: AtomicUsize::new(STATE_INIT), semaphore: semaphore_one() }
    }

    /// A lock pre-seeded poisoned.
    pub fn poisoned() -> Self {
        AsyncRawOnceLock { state: AtomicUsize::new(STATE_POISON), semaphore: semaphore_one() }
    }

    /// The permit the embedding program awaits on the suspending paths.
    pub fn semaphore(&self) -> &Semaphore {
        &self.semaphore
    }

    /// Non-suspending snapshot of the tri-state word.
    pub fn try_get_checked(&self) -> Result<RawOnceState, PoisonError> {
        tri_of_word(self.state.load(Ordering::Acquire))
    }

    /// Non-suspending attempt to become the writer: read the word, try the
    /// permit, and re-check.
    pub fn try_lock_checked(&self) -> Result<Option<RawOnceState>, PoisonError> {
        match self.try_get_checked() {
            Ok(RawOnceState::Occupied) => Ok(Some(RawOnceState::Occupied)),
            Err(e) => Err(e),
            Ok(RawOnceState::Vacant) => match try_acquire_one(&self.semaphore) {
                TryAcquireOutcome::NoPermits => Ok(None),
                permit => after_permit_decision(permit, self.try_get_checked()),
            },
        }
    }

    /// The non-suspending half of the suspending write path: resolve
    /// immediately if possible, else direct the embedding program to await
    /// the permit.
    pub fn lock_attempt(&self) -> WriteAttempt {
        match self.try_get_checked() {
            Ok(RawOnceState::Occupied) => WriteAttempt::Ready(Ok(RawOnceState::Occupied)),
            Err(e) => WriteAttempt::Ready(Err(e)),
            Ok(RawOnceState::Vacant) => WriteAttempt::MustAcquire,
        }
    }

    /// Resumption of the write path after the awaited permit resolved.
    /// `acquired` reports whether a permit was granted (and must have been
    /// forgotten by the embedding program) or the semaphore was closed.
    pub fn lock_after_acquire(&self, acquired: bool) -> Result<RawOnceState, PoisonError> {
        resume_decision(acquired, self.try_get_checked())
    }

    /// Resumption of the read path: as the write path, but a granted
    /// permit is returned by the embedding program (the permit is dropped,
    /// not forgotten), so the reader never keeps the write side.
    pub fn get_after_acquire(&self, acquired: bool) -> Result<RawOnceState, PoisonError> {
        self.lock_after_acquire(acquired)
    }

    /// The writer abandons without committing: the permit returns to the
    /// semaphore and the word stays uninit.
    pub fn unlock_nopoison(&self) {
        add_one_permit(&self.semaphore);
    }

    /// The writer commits: word init, semaphore closed so every waiter
    /// re-reads and finds the committed value.
    pub fn unlock_init(&self) {
        self.state.store(STATE_INIT, Ordering::Release);
        close(&self.semaphore);
    }

    /// The writer failed: word poisoned, semaphore closed so every waiter
    /// is refused.
    pub fn unlock_poison(&self) {
        self.state.store(STATE_POISON, Ordering::Release);
        close(&self.semaphore);
    }
}

} // verus!
