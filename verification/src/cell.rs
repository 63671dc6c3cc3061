//! Backends for a single execution context: the non-suspending cell backend,
//! the cooperative fused backend, and the wait queue it relies on.

pub mod once_cell;
pub mod async_fused_cell;
pub mod async_once_cell;
pub mod condvar;
