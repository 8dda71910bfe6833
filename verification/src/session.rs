//! One heartbeat session: the session-state cell (`Idle` or `Active`), the
//! channel pair created for the session, and the monitor worker on the far
//! end. Starting a session builds a fresh pair of queues and a fresh monitor;
//! observing `Died` in the poll-drain adapter tears the session down to
//! `Idle`. The well-formedness invariant carried through every operation
//! makes the `Died` report unmissable and unrepeatable: a live monitor keeps
//! the status queue empty, and a dead one has queued exactly one `Died` at
//! most — so the report can never be refused for want of space.

use vstd::prelude::*;

use crate::channel::{after_drain, drain_result, Channel};
use crate::message::{Command, SendError, Status};
use crate::monitor::{monitor_step, Monitor, MonitorEvent, MonitorModel};

verus! {

/// Everything the session's contracts speak of.
pub ghost struct SessionView {
    /// Whether a worker session is active: `true` is `Active`, `false` is
    /// `Idle`.
    pub active: bool,
    /// Pending commands (heartbeats), oldest first.
    pub commands: Seq<Command>,
    /// The bound of the command queue.
    pub commands_capacity: nat,
    /// Whether the command producer is gone.
    pub commands_closed: bool,
    /// Pending statuses, oldest first; in this session they are all `Died`.
    pub statuses: Seq<Status>,
    /// The bound of the status queue.
    pub statuses_capacity: nat,
    /// The monitor worker's state.
    pub monitor: MonitorModel,
}

/// The session-state cell together with the channel pair and monitor of the
/// session it currently holds, if any.
pub struct Session {
    active: bool,
    commands: Channel<Command>,
    statuses: Channel<Status>,
    monitor: Monitor,
}

impl View for Session {
    type V = SessionView;

    closed spec fn view(&self) -> SessionView {
        SessionView {
            active: self.active,
            commands: self.commands@,
            commands_capacity: self.commands.spec_capacity(),
            commands_closed: self.commands.spec_closed(),
            statuses: self.statuses@,
            statuses_capacity: self.statuses.spec_capacity(),
            monitor: self.monitor.model(),
        }
    }
}

impl Session {
    /// Both queues respect their bounds; the status queue is open, carries
    /// nothing but `Died`, is empty while the monitor is live, and holds at
    /// most the single death report once it is not.
    pub closed spec fn wf(&self) -> bool {
        &&& self.commands.wf()
        &&& self.statuses.wf()
        &&& !self.statuses.spec_closed()
        &&& forall|i: int| 0 <= i < self.statuses@.len() ==> self.statuses@[i] is Died
        &&& !self.monitor.dead ==> self.statuses@.len() == 0
        &&& self.statuses@.len() <= 1
    }

    /// A fresh cell in the `Idle` state: no worker, nothing queued.
    pub fn new() -> (s: Self)
        ensures
            s.wf(),
            !s@.active,
            s@.commands == Seq::<Command>::empty(),
            s@.statuses == Seq::<Status>::empty(),
    {
        Session {
            active: false,
            commands: Channel::new(1),
            statuses: Channel::new(1),
            monitor: Monitor::new(0, 0),
        }
    }

    /// Whether a worker session is active.
    pub fn is_active(&self) -> (r: bool)
        ensures
            r == self@.active,
    {
        self.active
    }

    /// `Idle -> Active`: start one worker session. Whatever was held before
    /// is discarded, never reused: the handle is a freshly built channel pair
    /// with the given bound, and the monitor's first deadline is one full
    /// timeout window from `now`.
    pub fn start_session(&mut self, timeout_ms: u64, now: u64, capacity: usize)
        requires
            capacity >= 1,
            now + timeout_ms <= u64::MAX,
        ensures
            final(self).wf(),
            final(self)@ == (SessionView {
                active: true,
                commands: Seq::<Command>::empty(),
                commands_capacity: capacity as nat,
                commands_closed: false,
                statuses: Seq::<Status>::empty(),
                statuses_capacity: capacity as nat,
                monitor: MonitorModel {
                    timeout: timeout_ms as int,
                    deadline: now + timeout_ms,
                    dead: false,
                },
            }),
    {
        self.active = true;
        self.commands = Channel::new(capacity);
        self.statuses = Channel::new(capacity);
        self.monitor = Monitor::new(timeout_ms, now);
    }

    /// `Active -> Idle` by explicit teardown: the handle is discarded and
    /// the command side closed, so the worker ends instead of running on
    /// unobserved. A no-op when already idle.
    pub fn end_session(&mut self)
        requires
            old(self).wf(),
        ensures
            final(self).wf(),
            !final(self)@.active,
            !old(self)@.active ==> final(self)@ == old(self)@,
            old(self)@.active ==> final(self)@ == (SessionView {
                active: false,
                commands_closed: true,
                ..old(self)@
            }),
    {
        if self.active {
            self.active = false;
            self.commands.close();
        }
    }

    /// Front-end side: queue one command — for this worker a liveness pulse,
    /// whatever its payload. Refused with `Closed` when no session is active
    /// or the worker is gone, with `Full` under backpressure; a refusal
    /// changes nothing and never aborts.
    pub fn send_command(&mut self, c: Command) -> (r: Result<(), SendError>)
        requires
            old(self).wf(),
        ensures
            final(self).wf(),
            !old(self)@.active || old(self)@.commands_closed ==> {
                &&& r == Err::<(), SendError>(SendError::Closed)
                &&& final(self)@ == old(self)@
            },
            old(self)@.active && !old(self)@.commands_closed && old(self)@.commands.len()
                == old(self)@.commands_capacity ==> {
                &&& r == Err::<(), SendError>(SendError::Full)
                &&& final(self)@ == old(self)@
            },
            old(self)@.active && !old(self)@.commands_closed && old(self)@.commands.len()
                < old(self)@.commands_capacity ==> {
                &&& r == Ok::<(), SendError>(())
                &&& final(self)@ == (SessionView {
                    commands: old(self)@.commands.push(c),
                    ..old(self)@
                })
            },
    {
        if !self.active {
            Err(SendError::Closed)
        } else {
            self.commands.send(c)
        }
    }

    /// Worker side: one iteration of the monitor loop, with `now` the
    /// instant its bounded receive resolved. A pending command is consumed
    /// and fed to the monitor, resetting the deadline; an empty backlog is
    /// silence, and silence at or past the deadline queues the one `Died`
    /// report — which the invariant guarantees the bounded queue accepts.
    /// Returns the status queued, if any. With no active session this is a
    /// no-op.
    pub fn worker_step(&mut self, now: u64) -> (emitted: Option<Status>)
        requires
            old(self).wf(),
            now + old(self)@.monitor.timeout <= u64::MAX,
        ensures
            final(self).wf(),
            final(self)@.active == old(self)@.active,
            !old(self)@.active ==> emitted is None && final(self)@ == old(self)@,
            old(self)@.active && old(self)@.commands.len() > 0 ==> {
                &&& emitted is None
                &&& final(self)@ == (SessionView {
                    commands: after_drain(old(self)@.commands),
                    monitor: monitor_step(old(self)@.monitor, MonitorEvent::Feed(now as int)).0,
                    ..old(self)@
                })
            },
            old(self)@.active && old(self)@.commands.len() == 0 ==> {
                &&& final(self)@.monitor == monitor_step(
                    old(self)@.monitor,
                    MonitorEvent::Silence(now as int),
                ).0
                &&& (monitor_step(old(self)@.monitor, MonitorEvent::Silence(now as int)).1 ==> {
                    &&& emitted == Some(Status::Died)
                    &&& final(self)@ == (SessionView {
                        statuses: old(self)@.statuses.push(Status::Died),
                        monitor: final(self)@.monitor,
                        ..old(self)@
                    })
                })
                &&& (!monitor_step(old(self)@.monitor, MonitorEvent::Silence(now as int)).1 ==> {
                    &&& emitted is None
                    &&& final(self)@ == (SessionView { monitor: final(self)@.monitor, ..old(self)@ })
                })
            },
    {
        if !self.active {
            return None;
        }
        match self.commands.try_recv() {
            Some(_pulse) => {
                self.monitor.on_feed(now);
                None
            },
            None => {
                let died = self.monitor.on_silence(now);
                if died {
                    let sent = self.statuses.send(Status::Died);
                    assert(sent == Ok::<(), SendError>(()));
                    Some(Status::Died)
                } else {
                    None
                }
            },
        }
    }

    /// Front-end side, once per redraw tick: one non-blocking receive
    /// attempt on the status queue. Observing `Died` — the only status this
    /// worker sends — tears the session down, `Active -> Idle`; with nothing
    /// pending the cell is untouched. Never blocks.
    pub fn try_drain_status(&mut self) -> (r: Option<Status>)
        requires
            old(self).wf(),
        ensures
            final(self).wf(),
            !old(self)@.active ==> r is None && final(self)@ == old(self)@,
            old(self)@.active ==> {
                &&& r == drain_result(old(self)@.statuses)
                &&& (r is None ==> final(self)@ == old(self)@)
                &&& (r is Some ==> {
                    &&& r == Some(Status::Died)
                    &&& !final(self)@.active
                    &&& final(self)@ == (SessionView {
                        active: false,
                        statuses: after_drain(old(self)@.statuses),
                        ..old(self)@
                    })
                })
            },
    {
        if !self.active {
            return None;
        }
        match self.statuses.try_recv() {
            Some(st) => {
                self.active = false;
                Some(st)
            },
            None => None,
        }
    }
}

} // verus!
