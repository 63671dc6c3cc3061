//! Once/lazy synchronization primitives: a value slot that starts empty, is
//! written at most once (or, in the fused variant, rewritten until frozen),
//! and thereafter read without further synchronization cost.
//!
//! The verified core is the state machine layer: the bit-packed word of the
//! blocking backend, the tri-state word of the permit-based async backend,
//! the wait queue used by the cooperative backend, and the entry/guard
//! wrappers that turn a backend into a poison-aware occupied-or-vacant slot.
//! Thread parking and task suspension are performed by the embedding program,
//! which drives the step functions exposed here.

pub mod error;
pub mod raw;
pub mod sync;
pub mod cell;
pub mod once;
pub mod async_fused;
pub mod thunk;
pub mod mut_cell;
pub mod async_once;
pub mod async_lazy;
pub mod lazy;
pub mod const_box;
