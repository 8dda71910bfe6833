//! The full ticker bridge: the command channel, the status channel, the
//! ticker worker that owns one end of each, and the presentation-side value
//! that the poll-drain adapter maintains. The front end calls `send_command`
//! and `try_drain_status`; the loop that drives the worker calls
//! `worker_poll_command` and `worker_tick`, one event handled to completion
//! per call. Interleaving those calls reproduces every race the concurrent
//! system can exhibit, so the contracts here pin the outcome of each
//! interleaving exactly.

use vstd::prelude::*;

use crate::channel::{after_drain, drain_result, Channel};
use crate::message::{Command, SendError, Status};
use crate::ticker::{ticker_step, Ticker, TickerEvent};

verus! {

/// Everything the ticker bridge's contracts speak of: the two queues with
/// their bounds and peer flags, the worker state, and the last value the
/// poll-drain adapter applied to presentation state.
pub ghost struct BridgeView {
    /// Pending front-end-to-worker instructions, oldest first.
    pub commands: Seq<Command>,
    /// The bound of the command queue.
    pub commands_capacity: nat,
    /// Whether the command producer is gone.
    pub commands_closed: bool,
    /// Pending worker-to-front-end notifications, oldest first.
    pub statuses: Seq<Status>,
    /// The bound of the status queue.
    pub statuses_capacity: nat,
    /// Whether the status consumer is gone.
    pub statuses_closed: bool,
    /// The worker's accumulator and per-tick increment.
    pub worker: Ticker,
    /// The last accumulated value the front end has applied, if any.
    pub last_update: Option<i64>,
}

/// A ticker worker wired to its two bounded FIFO channels.
pub struct TickerBridge {
    commands: Channel<Command>,
    statuses: Channel<Status>,
    worker: Ticker,
    last_update: Option<i64>,
}

impl View for TickerBridge {
    type V = BridgeView;

    closed spec fn view(&self) -> BridgeView {
        BridgeView {
            commands: self.commands@,
            commands_capacity: self.commands.spec_capacity(),
            commands_closed: self.commands.spec_closed(),
            statuses: self.statuses@,
            statuses_capacity: self.statuses.spec_capacity(),
            statuses_closed: self.statuses.spec_closed(),
            worker: self.worker,
            last_update: self.last_update,
        }
    }
}

impl TickerBridge {
    /// Both queues respect their bounds.
    pub closed spec fn wf(&self) -> bool {
        self.commands.wf() && self.statuses.wf()
    }

    /// A fresh bridge: both queues empty and open with the given bound, the
    /// worker at zero with increment zero, nothing applied yet.
    pub fn new(capacity: usize) -> (b: Self)
        requires
            capacity >= 1,
        ensures
            b.wf(),
            b@ == (BridgeView {
                commands: Seq::<Command>::empty(),
                commands_capacity: capacity as nat,
                commands_closed: false,
                statuses: Seq::<Status>::empty(),
                statuses_capacity: capacity as nat,
                statuses_closed: false,
                worker: Ticker { current: 0, delta: 0 },
                last_update: None::<i64>,
            }),
    {
        TickerBridge {
            commands: Channel::new(capacity),
            statuses: Channel::new(capacity),
            worker: Ticker::new(),
            last_update: None,
        }
    }

    /// Front-end side: queue one command for the worker. Refused with a
    /// typed error — never by aborting — when the worker is gone or the
    /// bounded queue is at capacity; a refusal changes nothing.
    pub fn send_command(&mut self, c: Command) -> (r: Result<(), SendError>)
        requires
            old(self).wf(),
        ensures
            final(self).wf(),
            old(self)@.commands_closed ==> {
                &&& r == Err::<(), SendError>(SendError::Closed)
                &&& final(self)@ == old(self)@
            },
            !old(self)@.commands_closed && old(self)@.commands.len()
                == old(self)@.commands_capacity ==> {
                &&& r == Err::<(), SendError>(SendError::Full)
                &&& final(self)@ == old(self)@
            },
            !old(self)@.commands_closed && old(self)@.commands.len()
                < old(self)@.commands_capacity ==> {
                &&& r == Ok::<(), SendError>(())
                &&& final(self)@ == (BridgeView { commands: old(self)@.commands.push(c), ..old(self)@ })
            },
    {
        self.commands.send(c)
    }

    /// Worker side: consume at most one pending command and handle it to
    /// completion — `ChangeDelta(n)` replaces the per-tick increment. Returns
    /// the command consumed, if any.
    pub fn worker_poll_command(&mut self) -> (consumed: Option<Command>)
        requires
            old(self).wf(),
        ensures
            final(self).wf(),
            consumed == drain_result(old(self)@.commands),
            final(self)@.commands == after_drain(old(self)@.commands),
            final(self)@ == (BridgeView {
                commands: final(self)@.commands,
                worker: final(self)@.worker,
                ..old(self)@
            }),
            match consumed {
                None => final(self)@.worker == old(self)@.worker,
                Some(c) => match c {
                    Command::ChangeDelta(n) => final(self)@.worker.model() == ticker_step(
                        old(self)@.worker.model(),
                        TickerEvent::SetDelta(n as int),
                    ),
                    Command::HeartBeat => final(self)@.worker == old(self)@.worker,
                },
            },
    {
        match self.commands.try_recv() {
            Some(c) => {
                self.worker.on_command(c);
                Some(c)
            },
            None => None,
        }
    }

    /// Worker side: handle one timer tick to completion — add the increment
    /// to the accumulator and queue the new value as an `Update` status.
    /// A full status queue is a backpressure failure and a gone consumer a
    /// closure failure: both are reported as typed errors with the whole
    /// bridge left untouched, so the event stays atomic.
    pub fn worker_tick(&mut self) -> (r: Result<(), SendError>)
        requires
            old(self).wf(),
            i64::MIN <= old(self)@.worker.current + old(self)@.worker.delta <= i64::MAX,
        ensures
            final(self).wf(),
            old(self)@.statuses_closed ==> {
                &&& r == Err::<(), SendError>(SendError::Closed)
                &&& final(self)@ == old(self)@
            },
            !old(self)@.statuses_closed && old(self)@.statuses.len()
                == old(self)@.statuses_capacity ==> {
                &&& r == Err::<(), SendError>(SendError::Full)
                &&& final(self)@ == old(self)@
            },
            !old(self)@.statuses_closed && old(self)@.statuses.len()
                < old(self)@.statuses_capacity ==> {
                &&& r == Ok::<(), SendError>(())
                &&& final(self)@.worker.model() == ticker_step(
                    old(self)@.worker.model(),
                    TickerEvent::Tick,
                )
                &&& final(self)@ == (BridgeView {
                    statuses: old(self)@.statuses.push(
                        Status::Update(final(self)@.worker.current),
                    ),
                    worker: final(self)@.worker,
                    ..old(self)@
                })
            },
    {
        if self.statuses.is_closed() {
            Err(SendError::Closed)
        } else if self.statuses.is_full() {
            Err(SendError::Full)
        } else {
            let st = self.worker.on_tick();
            self.statuses.send(st)
        }
    }

    /// Front-end side, once per redraw tick: one non-blocking receive
    /// attempt on the status queue. At most one pending status is consumed
    /// and applied — an `Update` replaces the presentation value; with
    /// nothing pending this is a no-op. Never blocks.
    pub fn try_drain_status(&mut self) -> (r: Option<Status>)
        requires
            old(self).wf(),
        ensures
            final(self).wf(),
            r == drain_result(old(self)@.statuses),
            final(self)@.statuses == after_drain(old(self)@.statuses),
            final(self)@ == (BridgeView {
                statuses: final(self)@.statuses,
                last_update: final(self)@.last_update,
                ..old(self)@
            }),
            match r {
                Some(st) => match st {
                    Status::Update(v) => final(self)@.last_update == Some(v),
                    Status::Died => final(self)@.last_update == old(self)@.last_update,
                },
                None => final(self)@.last_update == old(self)@.last_update,
            },
    {
        match self.statuses.try_recv() {
            Some(st) => {
                match st {
                    Status::Update(v) => {
                        self.last_update = Some(v);
                    },
                    Status::Died => {},
                }
                Some(st)
            },
            None => None,
        }
    }

    /// The last accumulated value the poll-drain adapter has applied.
    pub fn last_update(&self) -> (r: Option<i64>)
        ensures
            r == self@.last_update,
    {
        self.last_update
    }

    /// Whether the command producer is gone, which is the worker loop's
    /// signal to terminate once the backlog is drained.
    pub fn commands_closed(&self) -> (r: bool)
        ensures
            r == self@.commands_closed,
    {
        self.commands.is_closed()
    }

    /// Record that the front end has discarded its sending end: later
    /// `send_command` calls are refused and the worker, once the backlog is
    /// drained, sees the closure and terminates.
    pub fn close_commands(&mut self)
        requires
            old(self).wf(),
        ensures
            final(self).wf(),
            final(self)@ == (BridgeView { commands_closed: true, ..old(self)@ }),
    {
        self.commands.close();
    }
}

} // verus!
