//! The async permit primitive consumed by the permit-based backends: a
//! counting semaphore with exactly one permit, held by the current writer.
//! The permit is forgotten (not returned) on acquisition; a retry transition
//! restores it, and the terminal transitions close the semaphore so every
//! later waiter is refused. Nothing is promised about any outcome that
//! depends on other tasks: the semaphore is shared, and what `try_acquire`
//! finds is whatever the other tasks left.
//!
//! The one suspension point — awaiting the permit — is performed by the
//! embedding program on the semaphore exposed by the lock types.

use vstd::prelude::*;
use tokio::sync::Semaphore;

verus! {

/// tokio's counting semaphore, used opaquely.
#[verifier::external_type_specification]
#[verifier::external_body]
pub struct ExSemaphore(Semaphore);

/// What a non-suspending permit attempt found.
#[derive(Copy, Clone, Eq, PartialEq, Structural, Debug)]
pub enum TryAcquireOutcome {
    /// The permit was granted and forgotten: the caller is the writer.
    Acquired,
    /// Another task holds the permit.
    NoPermits,
    /// The semaphore was closed by a terminal transition.
    Closed,
}

/// Relies on tokio::sync::Semaphore::const_new: a fresh semaphore holding
/// exactly one permit.
#[verifier::external_body]
pub(crate) fn semaphore_one() -> Semaphore {
    Semaphore::const_new(1)
}

/// Relies on tokio::sync::Semaphore::try_acquire — which grants a permit,
/// or reports no permits, or reports the semaphore closed — and on
/// SemaphorePermit::forget, which keeps the granted permit out of the
/// semaphore instead of returning it on drop.
#[verifier::external_body]
pub(crate) fn try_acquire_one(s: &Semaphore) -> TryAcquireOutcome {
    match s.try_acquire() {
        Ok(permit) => {
            permit.forget();
            TryAcquireOutcome::Acquired
        },
        Err(tokio::sync::TryAcquireError::Closed) => TryAcquireOutcome::Closed,
        Err(tokio::sync::TryAcquireError::NoPermits) => TryAcquireOutcome::NoPermits,
    }
}

/// Relies on tokio::sync::Semaphore::add_permits, which panics only when
/// the count would pass the semaphore's permit cap. Crate-visible on
/// purpose: the only semaphores ever handed in are this module's own
/// one-permit semaphores, and the protocol only ever returns the single
/// permit it previously forgot, far below the cap.
#[verifier::external_body]
pub(crate) fn add_one_permit(s: &Semaphore) {
    s.add_permits(1);
}

/// Relies on tokio::sync::Semaphore::close: no further permit is ever
/// granted; pending and later acquires are refused.
#[verifier::external_body]
pub(crate) fn close(s: &Semaphore) {
    s.close();
}

} // verus!
