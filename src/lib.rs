//! Synchronization primitives for cooperatively scheduled coroutines.
//!
//! Every primitive is a state machine: an operation takes the shared state by
//! exclusive borrow, performs one step of the protocol, and tells its caller what
//! the scheduler has to do next (suspend the current coroutine, or mark a parked
//! one ready again).
pub mod wait_list;
pub mod mutex;
pub mod mpsc;
