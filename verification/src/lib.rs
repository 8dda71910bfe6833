//! A verified bridge between a poll-driven front end and a background worker.
//!
//! Two bounded FIFO channels carry typed messages across the boundary: a
//! command channel from the front end to the worker, and a status channel
//! back. Two worker variants are provided: a periodic ticker that accumulates
//! a per-tick increment, and a heartbeat monitor that declares the peer dead
//! when no command arrives within a timeout window. A session state machine
//! ties one worker's lifetime to the front-end handle that drives it.

pub mod bridge;
pub mod channel;
pub mod message;
pub mod monitor;
pub mod session;
pub mod ticker;
