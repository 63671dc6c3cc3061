//! Thread identities for the blocking backend's cycle detector.

use vstd::prelude::*;

verus! {

/// A process-unique, nonzero identity for an execution context, stable for
/// that context's lifetime. The blocking backend stores it in the upper bits
/// of its state word, so a usable identity is a nonzero multiple of 16.
///
/// The embedding program supplies the identity of the current thread (for
/// example from the address of a thread-local); this crate only packs and
/// compares identities.
#[derive(Copy, Clone, Eq, PartialEq, Structural, Debug)]
pub struct ThreadId(pub usize);

impl ThreadId {
    /// True when the identity fits the state word's packing: nonzero, with
    /// the four flag bits clear.
    pub open spec fn is_packable(self) -> bool {
        self.0 & 0b1111 == 0 && self.0 != 0
    }

    /// Checks a raw token for use as a thread identity, accepting exactly
    /// the nonzero multiples of 16.
    pub fn from_raw(raw: usize) -> (r: Option<ThreadId>)
        ensures
            r is Some <==> (raw & 0b1111 == 0 && raw != 0),
            r matches Some(id) ==> id == ThreadId(raw) && id.is_packable(),
    {
        if raw & 0b1111 == 0 && raw != 0 {
            Some(ThreadId(raw))
        } else {
            None
        }
    }
}

} // verus!
