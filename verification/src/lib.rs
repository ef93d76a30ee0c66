//! A bridge between a single-threaded, tick-driven main loop and a pool of
//! concurrently scheduled background tasks.
//!
//! The main loop owns a large mutable state object that background tasks must
//! never touch directly. Instead, tasks observe a monotonically increasing
//! (wrapping) tick counter, suspend until a number of ticks have elapsed, and
//! submit callbacks that the main loop executes with exclusive access to its
//! state. This crate holds the verified core of that bridge: the tick clock,
//! the sleep wake-up condition, the FIFO callback queue, and the per-tick
//! drain routine. The host's schedulers and channels sit outside it and drive
//! these pieces.

pub mod clock;
pub mod sleep;
pub mod queue;
pub mod bridge;
