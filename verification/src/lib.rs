//! Low-level building blocks for a small task-execution runtime: a busy-wait
//! mutual-exclusion primitive, a bounded single-producer/single-consumer ring
//! buffer, and a fixed-size worker pool that dispatches submitted tasks from a
//! shared backlog guarded by the lock.

pub mod spin;
pub mod spsc;
pub mod pool;
