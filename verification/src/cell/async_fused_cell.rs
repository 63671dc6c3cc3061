//! The cooperative fused backend for a single task context: a four-state tag
//! plus a wait queue of writers. A contended write attempt enqueues the
//! caller instead of spinning; each release notifies the front waiter. The
//! embedding program performs the actual suspension and wakeup with the
//! identities this backend hands out.

use vstd::prelude::*;
use crate::cell::condvar::{spec_first_running, spec_has_id, spec_notify, Condvar, WaiterState};
use crate::error::PoisonError;
use crate::raw::{AsyncRawFused, RawModel, RawOnceState};

verus! {

#[derive(Copy, Clone, Eq, PartialEq, Structural, Debug)]
enum FusedCellState {
    Unlocked,
    Write,
    Read,
    Poison,
}

/// Raw fused backend for one cooperative execution context.
#[derive(Debug)]
pub struct AsyncRawFusedCell(FusedCellState);

/// One turn of the contended write loop: either the attempt resolved, or the
/// caller was enqueued under the returned waiter identity and must suspend
/// until notified, then take another turn.
#[derive(Copy, Clone, Debug)]
pub enum WriteStep {
    Ready(Result<RawOnceState, PoisonError>),
    Wait(u64),
}

impl AsyncRawFused for AsyncRawFusedCell {
    closed spec fn model(&self) -> RawModel {
        match self.0 {
            FusedCellState::Unlocked => RawModel::Uninit,
            FusedCellState::Write => RawModel::Locked,
            FusedCellState::Read => RawModel::Init,
            FusedCellState::Poison => RawModel::Poison,
        }
    }

    fn unlocked() -> (r: Self) {
        AsyncRawFusedCell(FusedCellState::Unlocked)
    }

    fn read_only() -> (r: Self) {
        AsyncRawFusedCell(FusedCellState::Read)
    }

    fn poisoned() -> (r: Self) {
        AsyncRawFusedCell(FusedCellState::Poison)
    }

    fn try_write_checked(&mut self) -> (r: Result<Option<RawOnceState>, PoisonError>) {
        match self.0 {
            FusedCellState::Unlocked => {
                self.0 = FusedCellState::Write;
                Ok(Some(RawOnceState::Vacant))
            },
            FusedCellState::Write => Ok(None),
            FusedCellState::Read => Ok(Some(RawOnceState::Occupied)),
            FusedCellState::Poison => Err(PoisonError),
        }
    }

    fn try_read_checked(&self) -> (r: Result<RawOnceState, PoisonError>) {
        match self.0 {
            FusedCellState::Unlocked => Ok(RawOnceState::Vacant),
            FusedCellState::Write => Ok(RawOnceState::Vacant),
            FusedCellState::Read => Ok(RawOnceState::Occupied),
            FusedCellState::Poison => Err(PoisonError),
        }
    }

    fn unlock(&mut self) {
        self.0 = FusedCellState::Unlocked;
    }

    fn unlock_poison(&mut self) {
        self.0 = FusedCellState::Poison;
    }

    fn unlock_fuse(&mut self) {
        self.0 = FusedCellState::Read;
    }
}

impl AsyncRawFusedCell {
    /// One turn of the suspending write path. Finding the slot unlocked
    /// makes the caller the writer; finding another writer enqueues the
    /// caller on `writers`; a frozen or poisoned slot resolves immediately.
    pub fn write_step(&mut self, writers: &mut Condvar) -> (r: WriteStep)
        requires
            old(writers).wf(),
            old(writers).ids_used() < u64::MAX,
        ensures
            final (writers).wf(),
            match old(self).model() {
                RawModel::Uninit => r == WriteStep::Ready(Ok(RawOnceState::Vacant))
                    && final (self).model() is Locked && final (writers)@ == old(writers)@,
                RawModel::Locked => r matches WriteStep::Wait(id) && *final (self) == *old(self)
                    && final (writers)@ == old(writers)@.push((id, WaiterState::Running)),
                RawModel::Init => r == WriteStep::Ready(Ok(RawOnceState::Occupied))
                    && *final (self) == *old(self) && final (writers)@ == old(writers)@,
                RawModel::Poison => r == WriteStep::Ready(Err(PoisonError))
                    && *final (self) == *old(self) && final (writers)@ == old(writers)@,
            },
    {
        match self.0 {
            FusedCellState::Unlocked => {
                self.0 = FusedCellState::Write;
                WriteStep::Ready(Ok(RawOnceState::Vacant))
            },
            FusedCellState::Write => WriteStep::Wait(writers.wait_start()),
            FusedCellState::Read => WriteStep::Ready(Ok(RawOnceState::Occupied)),
            FusedCellState::Poison => WriteStep::Ready(Err(PoisonError)),
        }
    }

    /// The writer releases the slot back to unlocked and passes the write
    /// side to the front waiter, whose identity the embedding program must
    /// wake.
    pub fn unlock_and_notify(&mut self, writers: &mut Condvar) -> (woken: Option<u64>)
        requires
            old(self).model() is Locked,
            old(writers).wf(),
        ensures
            final (self).model() is Uninit,
            final (writers).wf(),
            woken == spec_first_running(old(writers)@),
            final (writers)@ == spec_notify(old(writers)@),
    {
        self.0 = FusedCellState::Unlocked;
        writers.notify()
    }

    /// The writer freezes the slot and wakes the front waiter, which will
    /// then observe the frozen value.
    pub fn fuse_and_notify(&mut self, writers: &mut Condvar) -> (woken: Option<u64>)
        requires
            old(self).model() is Locked,
            old(writers).wf(),
        ensures
            final (self).model() is Init,
            final (writers).wf(),
            woken == spec_first_running(old(writers)@),
            final (writers)@ == spec_notify(old(writers)@),
    {
        self.0 = FusedCellState::Read;
        writers.notify()
    }

    /// The writer failed; the slot is poisoned and the front waiter is woken
    /// so it can observe the failure.
    pub fn poison_and_notify(&mut self, writers: &mut Condvar) -> (woken: Option<u64>)
        requires
            old(self).model() is Locked,
            old(writers).wf(),
        ensures
            final (self).model() is Poison,
            final (writers).wf(),
            woken == spec_first_running(old(writers)@),
            final (writers)@ == spec_notify(old(writers)@),
    {
        self.0 = FusedCellState::Poison;
        writers.notify()
    }

    /// A waiter enqueued by `write_step` polls after a wakeup: `true` means
    /// its notification arrived, its record left the queue, and it must take
    /// another `write_step` turn; `false` means the wakeup was spurious.
    pub fn poll_writer(&mut self, writers: &mut Condvar, id: u64) -> (ready: bool)
        requires
            old(writers).wf(),
            spec_has_id(old(writers)@, id),
        ensures
            *final (self) == *old(self),
            final (writers).wf(),
            ({
                let i = crate::cell::condvar::spec_idx_of(old(writers)@, id);
                if ready {
                    old(writers)@[i].1 is Notified && final (writers)@ == old(writers)@.remove(i)
                } else {
                    old(writers)@[i].1 is Running && final (writers)@ == old(writers)@
                }
            }),
    {
        match writers.poll_wait(id) {
            Some(g) => {
                g.consume();
                true
            },
            None => false,
        }
    }

    /// A waiter abandons its wait (cancellation): its record is unlinked
    /// and, if it had already been chosen, the notification passes to the
    /// next waiter, whose identity is returned for the embedding program to
    /// wake.
    pub fn cancel_writer(&mut self, writers: &mut Condvar, id: u64) -> (woken: Option<u64>)
        requires
            old(writers).wf(),
            spec_has_id(old(writers)@, id),
        ensures
            *final (self) == *old(self),
            final (writers).wf(),
            ({
                let i = crate::cell::condvar::spec_idx_of(old(writers)@, id);
                let removed = old(writers)@.remove(i);
                if old(writers)@[i].1 is Notified {
                    woken == spec_first_running(removed) && final (writers)@ == spec_notify(
                        removed)
                } else {
                    woken is None && final (writers)@ == removed
                }
            }),
    {
        writers.cancel_wait(id)
    }
}

} // verus!
