//! Backends for preemptible threads: the bit-packed atomic word of the
//! blocking lock and the permit-based words of the async locks.

pub mod state;
pub mod thread_id;
pub mod once_lock;
pub mod semaphore;
pub mod async_fused_lock;
pub mod async_once_lock;
