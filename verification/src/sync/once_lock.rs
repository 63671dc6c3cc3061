//! The blocking backend: one atomic word shared by preemptible threads.
//!
//! The decision ladder of the contended paths — what a thread does after
//! each snapshot of the word — is pure logic and is specified exactly by the
//! `*_decision` functions. The atomic word itself is shared mutable state:
//! nothing can be promised about what a load returns or whether an exchange
//! succeeds, so the functions operating on the live word promise only that
//! they follow the decision ladder on whatever they observe. The embedding
//! program performs the parking: a `MustPark` outcome means "sleep on this
//! lock's address until unparked, then take another step", and a `true` from
//! an unlock means "unpark all sleepers".

use vstd::prelude::*;
use core::sync::atomic::AtomicUsize;
use core::sync::atomic::Ordering;
use crate::error::{LockError, PoisonError};
use crate::raw::RawOnceState;
use crate::sync::state::State;
use crate::sync::thread_id::ThreadId;

verus! {

/// What one snapshot of the word tells a thread that wants to write.
#[derive(Copy, Clone, Debug)]
pub enum LockDecision {
    /// The slot is initialized: read it, no further work.
    Occupied,
    /// The slot is poisoned: fail.
    Poisoned,
    /// The slot is free: try to exchange in this word (locked by me).
    Acquire(State),
    /// The lock is held by the deciding thread itself: reentrant
    /// initialization would deadlock, fail with a cycle instead.
    Cycle,
    /// Held by another thread, parked bit clear: try to exchange in this
    /// word (parked set) before sleeping.
    SetParked(State),
    /// Held by another thread and the parked bit is set: sleep.
    Park,
}

/// What one snapshot tells a read-only waiter (`get`): as `LockDecision`,
/// but a free slot is reported vacant rather than acquired.
#[derive(Copy, Clone, Debug)]
pub enum GetDecision {
    Occupied,
    Poisoned,
    Vacant,
    Cycle,
    SetParked(State),
    Park,
}

/// What one snapshot tells a non-suspending writer (`try_lock`).
#[derive(Copy, Clone, Debug)]
pub enum TryLockDecision {
    Occupied,
    Poisoned,
    Acquire(State),
    /// Held by another thread: a non-suspending attempt yields no entry.
    WouldBlock,
}

/// Outcome of one suspending-path step on the live word.
#[derive(Copy, Clone, Debug)]
pub enum LockStep {
    Done(Result<RawOnceState, LockError>),
    /// Sleep on the lock's address until unparked, then step again.
    MustPark,
    /// The word kept changing under this thread's exchanges for a whole
    /// spin budget: step again (optionally yielding first).
    Retry,
}

/// Outcome of one non-suspending attempt on the live word.
#[derive(Copy, Clone, Debug)]
pub enum TryLockStep {
    Done(Result<Option<RawOnceState>, PoisonError>),
    /// The word kept changing under this thread's exchanges for a whole
    /// spin budget: attempt again (optionally yielding first).
    Retry,
}

/// How many failed exchanges a step tolerates before handing control back.
pub const SPIN_BUDGET: usize = 64;

/// The decision ladder of the contended write path, for one observed word.
pub fn lock_decision(state: State, tid: ThreadId) -> (r: LockDecision)
    requires
        tid.is_packable(),
    ensures
        state.is_init() ==> r is Occupied,
        !state.is_init() && state.is_poison() ==> r is Poisoned,
        !state.is_init() && !state.is_poison() && !state.is_locked() ==> (r matches
            LockDecision::Acquire(t) && t.is_locked() && t.owner() == tid.0 && !t.is_init()
            && !t.is_poison() && !t.is_parked()),
        !state.is_init() && !state.is_poison() && state.is_locked() && state.owner() == tid.0
            ==> r is Cycle,
        !state.is_init() && !state.is_poison() && state.is_locked() && state.owner() != tid.0
            && !state.is_parked() ==> (r matches LockDecision::SetParked(t) && t.is_parked()
            && t.is_locked() == state.is_locked() && t.is_init() == state.is_init()
            && t.is_poison() == state.is_poison() && t.owner() == state.owner()),
        !state.is_init() && !state.is_poison() && state.is_locked() && state.owner() != tid.0
            && state.is_parked() ==> r is Park,
{
    if state.init() {
        LockDecision::Occupied
    } else if state.poison() {
        LockDecision::Poisoned
    } else if !state.locked() {
        LockDecision::Acquire(State::new().with_thread_id(tid).with_locked(true))
    } else if state.thread_id().0 == tid.0 {
        LockDecision::Cycle
    } else if !state.parked() {
        LockDecision::SetParked(state.with_parked(true))
    } else {
        LockDecision::Park
    }
}

/// The decision ladder of the contended read path, for one observed word.
pub fn get_decision(state: State, tid: ThreadId) -> (r: GetDecision)
    ensures
        state.is_init() ==> r is Occupied,
        !state.is_init() && state.is_poison() ==> r is Poisoned,
        !state.is_init() && !state.is_poison() && !state.is_locked() ==> r is Vacant,
        !state.is_init() && !state.is_poison() && state.is_locked() && state.owner() == tid.0
            ==> r is Cycle,
        !state.is_init() && !state.is_poison() && state.is_locked() && state.owner() != tid.0
            && !state.is_parked() ==> (r matches GetDecision::SetParked(t) && t.is_parked()
            && t.is_locked() == state.is_locked() && t.is_init() == state.is_init()
            && t.is_poison() == state.is_poison() && t.owner() == state.owner()),
        !state.is_init() && !state.is_poison() && state.is_locked() && state.owner() != tid.0
            && state.is_parked() ==> r is Park,
{
    if state.init() {
        GetDecision::Occupied
    } else if state.poison() {
        GetDecision::Poisoned
    } else if !state.locked() {
        GetDecision::Vacant
    } else if state.thread_id().0 == tid.0 {
        GetDecision::Cycle
    } else if !state.parked() {
        GetDecision::SetParked(state.with_parked(true))
    } else {
        GetDecision::Park
    }
}

/// The decision ladder of the non-suspending write path, for one observed
/// word.
pub fn try_lock_decision(state: State, tid: ThreadId) -> (r: TryLockDecision)
    requires
        tid.is_packable(),
    ensures
        state.is_init() ==> r is Occupied,
        !state.is_init() && state.is_poison() ==> r is Poisoned,
        !state.is_init() && !state.is_poison() && !state.is_locked() ==> (r matches
            TryLockDecision::Acquire(t) && t.is_locked() && t.owner() == tid.0 && !t.is_init()
            && !t.is_poison() && !t.is_parked()),
        !state.is_init() && !state.is_poison() && state.is_locked() ==> r is WouldBlock,
{
    if state.init() {
        TryLockDecision::Occupied
    } else if state.poison() {
        TryLockDecision::Poisoned
    } else if !state.locked() {
        TryLockDecision::Acquire(State::new().with_thread_id(tid).with_locked(true))
    } else {
        TryLockDecision::WouldBlock
    }
}

/// Classify one observed word for the read-only snapshot: initialized,
/// poisoned, or vacant (vacant even while a writer holds the slot).
pub fn snapshot_decision(state: State) -> (r: Result<RawOnceState, PoisonError>)
    ensures
        state.is_init() ==> r == Ok::<RawOnceState, PoisonError>(RawOnceState::Occupied),
        !state.is_init() && state.is_poison() ==> r == Err::<RawOnceState, PoisonError>(
            PoisonError),
        !state.is_init() && !state.is_poison() ==> r == Ok::<RawOnceState, PoisonError>(
            RawOnceState::Vacant),
{
    if state.init() {
        Ok(RawOnceState::Occupied)
    } else if state.poison() {
        Err(PoisonError)
    } else {
        Ok(RawOnceState::Vacant)
    }
}

/// The blocking raw lock: a single atomic word. Shared across threads
/// through `&self`; the word's value at any moment is whatever the other
/// threads have made it, so each operation only follows the decision ladder
/// on its own observations.
#[derive(Debug)]
pub struct RawOnceLock {
    state: AtomicUsize,
}

impl RawOnceLock {
    /// A fresh lock: word all zeros (uninitialized).
    pub fn uninit() -> Self {
        RawOnceLock { state: AtomicUsize::new(State::new().to_word()) }
    }

    /// A lock pre-seeded initialized.
    pub fn initialized() -> Self {
        RawOnceLock { state: AtomicUsize::new(State::new().with_init(true).to_word()) }
    }

    /// A lock pre-seeded poisoned.
    pub fn poisoned() -> Self {
        RawOnceLock { state: AtomicUsize::new(State::new().with_poison(true).to_word()) }
    }

    /// Non-suspending snapshot: classifies the loaded word through the
    /// contracted `snapshot_decision`.
    pub fn try_get_checked(&self) -> Result<RawOnceState, PoisonError> {
        snapshot_decision(State::from_word(self.state.load(Ordering::Acquire)))
    }

    /// Non-suspending attempt to become the writer: follows the
    /// `try_lock_decision` ladder, retrying while exchanges fail, for one
    /// spin budget.
    pub fn try_lock_checked(&self, tid: ThreadId) -> TryLockStep
        requires
            tid.is_packable(),
    {
        let mut state = State::from_word(self.state.load(Ordering::Acquire));
        let mut attempts: usize = 0;
        while attempts < SPIN_BUDGET
            invariant
                tid.is_packable(),
            decreases SPIN_BUDGET - attempts,
        {
            match try_lock_decision(state, tid) {
                TryLockDecision::Occupied => {
                    return TryLockStep::Done(Ok(Some(RawOnceState::Occupied)));
                },
                TryLockDecision::Poisoned => {
                    return TryLockStep::Done(Err(PoisonError));
                },
                TryLockDecision::Acquire(target) => {
                    match self.state.compare_exchange_weak(
                        state.to_word(),
                        target.to_word(),
                        Ordering::Relaxed,
                        Ordering::Acquire,
                    ) {
                        Ok(_prev) => {
                            return TryLockStep::Done(Ok(Some(RawOnceState::Vacant)));
                        },
                        Err(prev) => {
                            state = State::from_word(prev);
                        },
                    }
                },
                TryLockDecision::WouldBlock => {
                    return TryLockStep::Done(Ok(None));
                },
            }
            attempts = attempts + 1;
        }
        TryLockStep::Retry
    }

    /// One step of the suspending write path: follows the `lock_decision`
    /// ladder until it either resolves or reaches a parked word, in which
    /// case the embedding program must park the thread on this lock's
    /// address and step again after waking.
    pub fn lock_checked_step(&self, tid: ThreadId) -> LockStep
        requires
            tid.is_packable(),
    {
        let mut state = State::from_word(self.state.load(Ordering::Acquire));
        let mut attempts: usize = 0;
        while attempts < SPIN_BUDGET
            invariant
                tid.is_packable(),
            decreases SPIN_BUDGET - attempts,
        {
            match lock_decision(state, tid) {
                LockDecision::Occupied => {
                    return LockStep::Done(Ok(RawOnceState::Occupied));
                },
                LockDecision::Poisoned => {
                    return LockStep::Done(Err(LockError::PoisonError));
                },
                LockDecision::Cycle => {
                    return LockStep::Done(Err(LockError::CycleError));
                },
                LockDecision::Acquire(target) => {
                    match self.state.compare_exchange_weak(
                        state.to_word(),
                        target.to_word(),
                        Ordering::Relaxed,
                        Ordering::Acquire,
                    ) {
                        Ok(_prev) => {
                            return LockStep::Done(Ok(RawOnceState::Vacant));
                        },
                        Err(prev) => {
                            state = State::from_word(prev);
                        },
                    }
                },
                LockDecision::SetParked(target) => {
                    match self.state.compare_exchange_weak(
                        state.to_word(),
                        target.to_word(),
                        Ordering::Relaxed,
                        Ordering::Acquire,
                    ) {
                        Ok(_prev) => {
                            return LockStep::MustPark;
                        },
                        Err(prev) => {
                            state = State::from_word(prev);
                        },
                    }
                },
                LockDecision::Park => {
                    return LockStep::MustPark;
                },
            }
            attempts = attempts + 1;
        }
        LockStep::Retry
    }

    /// One step of the suspending read path, as `lock_checked_step` but
    /// never acquiring: a free slot is reported vacant.
    pub fn get_checked_step(&self, tid: ThreadId) -> LockStep {
        let mut state = State::from_word(self.state.load(Ordering::Acquire));
        let mut attempts: usize = 0;
        while attempts < SPIN_BUDGET
            decreases SPIN_BUDGET - attempts,
        {
            match get_decision(state, tid) {
                GetDecision::Occupied => {
                    return LockStep::Done(Ok(RawOnceState::Occupied));
                },
                GetDecision::Poisoned => {
                    return LockStep::Done(Err(LockError::PoisonError));
                },
                GetDecision::Cycle => {
                    return LockStep::Done(Err(LockError::CycleError));
                },
                GetDecision::Vacant => {
                    return LockStep::Done(Ok(RawOnceState::Vacant));
                },
                GetDecision::SetParked(target) => {
                    match self.state.compare_exchange_weak(
                        state.to_word(),
                        target.to_word(),
                        Ordering::Relaxed,
                        Ordering::Acquire,
                    ) {
                        Ok(_prev) => {
                            return LockStep::MustPark;
                        },
                        Err(prev) => {
                            state = State::from_word(prev);
                        },
                    }
                },
                GetDecision::Park => {
                    return LockStep::MustPark;
                },
            }
            attempts = attempts + 1;
        }
        LockStep::Retry
    }

    /// Whether a parked thread's sleep is still justified: the word is
    /// still locked with the parked bit set. The embedding program passes
    /// this as the park validation, re-checked under the parking lot's
    /// bucket lock.
    pub fn park_validate(&self) -> bool {
        let state = State::from_word(self.state.load(Ordering::Relaxed));
        state.locked() && state.parked()
    }

    fn unlock_impl(&self, new_state: State) -> (was_parked: bool) {
        let old_word = self.state.swap(new_state.to_word(), Ordering::Release);
        State::from_word(old_word).parked()
    }

    /// The writer abandons without committing: word back to all zeros.
    /// Returns whether sleepers must be unparked by the embedding program.
    pub fn unlock_nopoison(&self) -> bool {
        self.unlock_impl(State::new())
    }

    /// The writer commits: word becomes initialized. Returns whether
    /// sleepers must be unparked by the embedding program.
    pub fn unlock_init(&self) -> bool {
        self.unlock_impl(State::new().with_init(true))
    }

    /// The writer failed: word becomes poisoned. Returns whether sleepers
    /// must be unparked by the embedding program.
    pub fn unlock_poison(&self) -> bool {
        self.unlock_impl(State::new().with_poison(true))
    }
}

} // verus!
