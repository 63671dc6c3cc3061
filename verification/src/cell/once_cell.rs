//! The non-suspending backend for a single execution context: a four-state
//! tag, where finding the slot write-locked means the caller's own stack
//! holds it, so a blocking lock attempt reports a cycle instead of waiting.

use vstd::prelude::*;
use crate::error::{LockError, PoisonError};
use crate::raw::{BlockingRawOnce, RawModel, RawOnce, RawOnceState};

verus! {

#[derive(Copy, Clone, Eq, PartialEq, Structural, Debug)]
enum CellState {
    Uninit,
    Initializing,
    Initialized,
    Poison,
}

/// Raw backend for one execution context; no atomics, no suspension.
#[derive(Debug)]
pub struct RawOnceCell(CellState);

impl RawOnce for RawOnceCell {
    closed spec fn model(&self) -> RawModel {
        match self.0 {
            CellState::Uninit => RawModel::Uninit,
            CellState::Initializing => RawModel::Locked,
            CellState::Initialized => RawModel::Init,
            CellState::Poison => RawModel::Poison,
        }
    }

    fn uninit() -> (r: Self) {
        RawOnceCell(CellState::Uninit)
    }

    fn initialized() -> (r: Self) {
        RawOnceCell(CellState::Initialized)
    }

    fn poisoned() -> (r: Self) {
        RawOnceCell(CellState::Poison)
    }

    fn try_lock_checked(&mut self) -> (r: Result<Option<RawOnceState>, PoisonError>) {
        match self.0 {
            CellState::Uninit => {
                self.0 = CellState::Initializing;
                Ok(Some(RawOnceState::Vacant))
            },
            CellState::Initializing => Ok(None),
            CellState::Initialized => Ok(Some(RawOnceState::Occupied)),
            CellState::Poison => Err(PoisonError),
        }
    }

    fn try_get_checked(&self) -> (r: Result<RawOnceState, PoisonError>) {
        match self.0 {
            CellState::Uninit => Ok(RawOnceState::Vacant),
            CellState::Initializing => Ok(RawOnceState::Vacant),
            CellState::Initialized => Ok(RawOnceState::Occupied),
            CellState::Poison => Err(PoisonError),
        }
    }

    fn unlock_nopoison(&mut self) {
        self.0 = CellState::Uninit;
    }

    fn unlock_init(&mut self) {
        self.0 = CellState::Initialized;
    }

    fn unlock_poison(&mut self) {
        self.0 = CellState::Poison;
    }
}

impl BlockingRawOnce for RawOnceCell {
    fn lock_checked(&mut self) -> (r: Result<RawOnceState, LockError>) {
        match self.try_lock_checked() {
            Ok(Some(s)) => Ok(s),
            Ok(None) => Err(LockError::CycleError),
            Err(_e) => Err(LockError::PoisonError),
        }
    }

    fn get_checked(&self) -> (r: Result<RawOnceState, LockError>) {
        match self.try_get_checked() {
            Ok(s) => Ok(s),
            Err(_e) => Err(LockError::PoisonError),
        }
    }
}

} // verus!
