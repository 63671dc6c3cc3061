//! Error types shared by every backend and wrapper.

use vstd::prelude::*;

verus! {

/// Terminal failure: an initializer failed to complete normally, and every
/// later operation on the same slot fails with this error.
#[derive(Copy, Clone, Eq, PartialEq, Structural, Debug, Hash)]
pub struct PoisonError;

/// Failure of a lock attempt: either the slot is poisoned, or the calling
/// thread already holds this lock (a reentrant initialization, which would
/// deadlock and is reported instead of hanging).
#[derive(Copy, Clone, Eq, PartialEq, Structural, Debug, Hash)]
pub enum LockError {
    PoisonError,
    CycleError,
}

impl PoisonError {
    /// A human-readable description, usable where `Display` would be.
    pub fn message(&self) -> (r: String)
        ensures
            r@ == "Once is poisoned"@,
    {
        "Once is poisoned".to_string()
    }
}

impl LockError {
    /// A human-readable description, usable where `Display` would be.
    pub fn message(&self) -> (r: String)
        ensures
            *self is PoisonError ==> r@ == "Once is poisoned"@,
            *self is CycleError ==> r@ == "Cycle while initializing Once"@,
    {
        match self {
            LockError::PoisonError => PoisonError.message(),
            LockError::CycleError => "Cycle while initializing Once".to_string(),
        }
    }
}

impl From<PoisonError> for LockError {
    fn from(_e: PoisonError) -> (r: Self) {
        LockError::PoisonError
    }
}

impl vstd::std_specs::convert::FromSpecImpl<PoisonError> for LockError {
    open spec fn obeys_from_spec() -> bool {
        true
    }

    open spec fn from_spec(e: PoisonError) -> Self {
        LockError::PoisonError
    }
}

} // verus!
