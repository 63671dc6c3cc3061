//! The cooperative once backend for a single task context: the once-flavored
//! sibling of the fused cell. A contended lock attempt enqueues the caller
//! on the lockers' queue; a read during initialization enqueues on the
//! getters' queue; each resolving transition wakes the front waiter of both
//! queues. Woken getters that find the slot resolved pass the wakeup on, so
//! a resolution cascades through every waiting reader. The embedding
//! program performs the suspension and wakeups with the identities handed
//! out here.

use vstd::prelude::*;
use crate::cell::async_fused_cell::WriteStep;
use crate::cell::condvar::{spec_first_running, spec_has_id, spec_idx_of, spec_notify, Condvar,
    WaiterState};
use crate::error::PoisonError;
use crate::raw::{RawModel, RawOnce, RawOnceState};

verus! {

#[derive(Copy, Clone, Eq, PartialEq, Structural, Debug)]
enum OnceCellState {
    Uninit,
    Initializing,
    Initialized,
    Poison,
}

/// Raw once backend for one cooperative execution context.
#[derive(Debug)]
pub struct AsyncRawOnceCell(OnceCellState);

impl RawOnce for AsyncRawOnceCell {
    closed spec fn model(&self) -> RawModel {
        match self.0 {
            OnceCellState::Uninit => RawModel::Uninit,
            OnceCellState::Initializing => RawModel::Locked,
            OnceCellState::Initialized => RawModel::Init,
            OnceCellState::Poison => RawModel::Poison,
        }
    }

    fn uninit() -> (r: Self) {
        AsyncRawOnceCell(OnceCellState::Uninit)
    }

    fn initialized() -> (r: Self) {
        AsyncRawOnceCell(OnceCellState::Initialized)
    }

    fn poisoned() -> (r: Self) {
        AsyncRawOnceCell(OnceCellState::Poison)
    }

    fn try_lock_checked(&mut self) -> (r: Result<Option<RawOnceState>, PoisonError>) {
        match self.0 {
            OnceCellState::Uninit => {
                self.0 = OnceCellState::Initializing;
                Ok(Some(RawOnceState::Vacant))
            },
            OnceCellState::Initializing => Ok(None),
            OnceCellState::Initialized => Ok(Some(RawOnceState::Occupied)),
            OnceCellState::Poison => Err(PoisonError),
        }
    }

    fn try_get_checked(&self) -> (r: Result<RawOnceState, PoisonError>) {
        match self.0 {
            OnceCellState::Uninit => Ok(RawOnceState::Vacant),
            OnceCellState::Initializing => Ok(RawOnceState::Vacant),
            OnceCellState::Initialized => Ok(RawOnceState::Occupied),
            OnceCellState::Poison => Err(PoisonError),
        }
    }

    fn unlock_nopoison(&mut self) {
        self.0 = OnceCellState::Uninit;
    }

    fn unlock_init(&mut self) {
        self.0 = OnceCellState::Initialized;
    }

    fn unlock_poison(&mut self) {
        self.0 = OnceCellState::Poison;
    }
}

impl AsyncRawOnceCell {
    /// One turn of the suspending lock path: become the writer, resolve
    /// immediately, or be enqueued on the lockers' queue and suspend until
    /// notified, then take another turn.
    pub fn lock_step(&mut self, lockers: &mut Condvar) -> (r: WriteStep)
        requires
            old(lockers).wf(),
            old(lockers).ids_used() < u64::MAX,
        ensures
            final (lockers).wf(),
            match old(self).model() {
                RawModel::Uninit => r == WriteStep::Ready(Ok(RawOnceState::Vacant))
                    && final (self).model() is Locked && final (lockers)@ == old(lockers)@,
                RawModel::Locked => r matches WriteStep::Wait(id) && *final (self) == *old(self)
                    && final (lockers)@ == old(lockers)@.push((id, WaiterState::Running)),
                RawModel::Init => r == WriteStep::Ready(Ok(RawOnceState::Occupied))
                    && *final (self) == *old(self) && final (lockers)@ == old(lockers)@,
                RawModel::Poison => r == WriteStep::Ready(Err(PoisonError))
                    && *final (self) == *old(self) && final (lockers)@ == old(lockers)@,
            },
    {
        match self.0 {
            OnceCellState::Uninit => {
                self.0 = OnceCellState::Initializing;
                WriteStep::Ready(Ok(RawOnceState::Vacant))
            },
            OnceCellState::Initializing => WriteStep::Wait(lockers.wait_start()),
            OnceCellState::Initialized => WriteStep::Ready(Ok(RawOnceState::Occupied)),
            OnceCellState::Poison => WriteStep::Ready(Err(PoisonError)),
        }
    }

    /// One turn of the suspending read path: never becomes the writer. A
    /// reader arriving during initialization is enqueued on the getters'
    /// queue; an unwritten, unheld slot reads vacant.
    pub fn get_step(&mut self, getters: &mut Condvar) -> (r: WriteStep)
        requires
            old(getters).wf(),
            old(getters).ids_used() < u64::MAX,
        ensures
            *final (self) == *old(self),
            final (getters).wf(),
            match old(self).model() {
                RawModel::Uninit => r == WriteStep::Ready(Ok(RawOnceState::Vacant))
                    && final (getters)@ == old(getters)@,
                RawModel::Locked => r matches WriteStep::Wait(id) && final (getters)@ == old(
                    getters)@.push((id, WaiterState::Running)),
                RawModel::Init => r == WriteStep::Ready(Ok(RawOnceState::Occupied))
                    && final (getters)@ == old(getters)@,
                RawModel::Poison => r == WriteStep::Ready(Err(PoisonError))
                    && final (getters)@ == old(getters)@,
            },
    {
        match self.0 {
            OnceCellState::Uninit => WriteStep::Ready(Ok(RawOnceState::Vacant)),
            OnceCellState::Initializing => WriteStep::Wait(getters.wait_start()),
            OnceCellState::Initialized => WriteStep::Ready(Ok(RawOnceState::Occupied)),
            OnceCellState::Poison => WriteStep::Ready(Err(PoisonError)),
        }
    }

    /// The writer commits: the slot is readable forever; the front waiter
    /// of each queue is woken (getters cascade further wakeups by releasing
    /// their guards).
    pub fn init_and_notify(&mut self, lockers: &mut Condvar, getters: &mut Condvar) -> (woken: (
        Option<u64>,
        Option<u64>,
    ))
        requires
            old(self).model() is Locked,
            old(lockers).wf(),
            old(getters).wf(),
        ensures
            final (self).model() is Init,
            final (lockers).wf(),
            final (getters).wf(),
            woken.0 == spec_first_running(old(lockers)@),
            final (lockers)@ == spec_notify(old(lockers)@),
            woken.1 == spec_first_running(old(getters)@),
            final (getters)@ == spec_notify(old(getters)@),
    {
        self.0 = OnceCellState::Initialized;
        (lockers.notify(), getters.notify())
    }

    /// The writer failed: the slot is poisoned and the front waiters are
    /// woken to observe the failure.
    pub fn poison_and_notify(&mut self, lockers: &mut Condvar, getters: &mut Condvar) -> (woken: (
        Option<u64>,
        Option<u64>,
    ))
        requires
            old(self).model() is Locked,
            old(lockers).wf(),
            old(getters).wf(),
        ensures
            final (self).model() is Poison,
            final (lockers).wf(),
            final (getters).wf(),
            woken.0 == spec_first_running(old(lockers)@),
            final (lockers)@ == spec_notify(old(lockers)@),
            woken.1 == spec_first_running(old(getters)@),
            final (getters)@ == spec_notify(old(getters)@),
    {
        self.0 = OnceCellState::Poison;
        (lockers.notify(), getters.notify())
    }

    /// The writer abandons without committing: the slot returns to uninit
    /// and the front waiters are woken so the next writer can proceed.
    pub fn retry_and_notify(&mut self, lockers: &mut Condvar, getters: &mut Condvar) -> (woken: (
        Option<u64>,
        Option<u64>,
    ))
        requires
            old(self).model() is Locked,
            old(lockers).wf(),
            old(getters).wf(),
        ensures
            final (self).model() is Uninit,
            final (lockers).wf(),
            final (getters).wf(),
            woken.0 == spec_first_running(old(lockers)@),
            final (lockers)@ == spec_notify(old(lockers)@),
            woken.1 == spec_first_running(old(getters)@),
            final (getters)@ == spec_notify(old(getters)@),
    {
        self.0 = OnceCellState::Uninit;
        (lockers.notify(), getters.notify())
    }

    /// A waiter polls its queue after a wakeup: `true` means its
    /// notification arrived and it must take another step; `false` means
    /// the wakeup was spurious.
    pub fn poll_waiter(&mut self, queue: &mut Condvar, id: u64) -> (ready: bool)
        requires
            old(queue).wf(),
            spec_has_id(old(queue)@, id),
        ensures
            *final (self) == *old(self),
            final (queue).wf(),
            ({
                let i = spec_idx_of(old(queue)@, id);
                if ready {
                    old(queue)@[i].1 is Notified && final (queue)@ == old(queue)@.remove(i)
                } else {
                    old(queue)@[i].1 is Running && final (queue)@ == old(queue)@
                }
            }),
    {
        match queue.poll_wait(id) {
            Some(g) => {
                g.consume();
                true
            },
            None => false,
        }
    }
}

} // verus!
