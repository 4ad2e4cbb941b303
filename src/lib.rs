//! Dispatch logic of a fixed-size worker pool: a closable FIFO job queue,
//! the per-worker state machine, and the pool controller that decides what
//! each worker does next and how the pool shuts down.
pub mod queue;
pub mod worker;
pub mod pool;
pub mod laws;
