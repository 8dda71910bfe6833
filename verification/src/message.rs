//! The typed messages exchanged across the bridge, and the send-side errors.

use vstd::prelude::*;

verus! {

/// A front-end-to-worker instruction.
#[derive(Clone, Copy, Debug, PartialEq, Eq, Structural)]
pub enum Command {
    /// Set the ticker worker's per-tick increment.
    ChangeDelta(i64),
    /// A liveness pulse for the heartbeat monitor; its arrival alone is the
    /// signal, it carries no payload.
    HeartBeat,
}

/// A worker-to-front-end notification.
#[derive(Clone, Copy, Debug, PartialEq, Eq, Structural)]
pub enum Status {
    /// The ticker worker's accumulated value after a tick.
    Update(i64),
    /// The monitored peer missed its liveness window.
    Died,
}

/// Why a send was refused. Sends never abort the process: both conditions
/// are surfaced to the caller as values.
#[derive(Clone, Copy, Debug, PartialEq, Eq, Structural)]
pub enum SendError {
    /// The consuming end of the channel is gone.
    Closed,
    /// The bounded queue is at capacity (backpressure).
    Full,
}

} // verus!
