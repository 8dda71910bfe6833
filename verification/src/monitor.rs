//! The heartbeat-monitor worker: a dead-man's switch. Every received command
//! (its payload is ignored — presence alone is the liveness signal) pushes
//! the deadline out by one timeout window; a silent wait that reaches the
//! deadline declares the peer dead. The monitor declares death exactly once
//! and then stops: repeated `Died` reports are ruled out by design.

use vstd::prelude::*;

verus! {

/// The mathematical state of the heartbeat monitor.
pub ghost struct MonitorModel {
    /// The liveness window, in milliseconds.
    pub timeout: int,
    /// The instant (absolute, in milliseconds) at which silence becomes
    /// fatal.
    pub deadline: int,
    /// Whether the peer has already been declared dead.
    pub dead: bool,
}

/// One event the monitor's bounded receive can resolve to.
pub ghost enum MonitorEvent {
    /// A command arrived at this instant.
    Feed(int),
    /// The bounded wait came back empty, observed at this instant.
    Silence(int),
}

/// The instant at which an event was observed.
pub open spec fn event_time(e: MonitorEvent) -> int {
    match e {
        MonitorEvent::Feed(now) => now,
        MonitorEvent::Silence(now) => now,
    }
}

/// How one event transforms the monitor, and whether it makes the monitor
/// report `Died`: a command arriving resets the deadline to one full window
/// after its arrival; silence at or past the deadline declares death, once;
/// a dead monitor ignores everything.
pub open spec fn monitor_step(m: MonitorModel, e: MonitorEvent) -> (MonitorModel, bool) {
    if m.dead {
        (m, false)
    } else {
        match e {
            MonitorEvent::Feed(now) => (
                MonitorModel { timeout: m.timeout, deadline: now + m.timeout, dead: false },
                false,
            ),
            MonitorEvent::Silence(now) => if now >= m.deadline {
                (MonitorModel { timeout: m.timeout, deadline: m.deadline, dead: true }, true)
            } else {
                (m, false)
            },
        }
    }
}

/// The monitor state after a whole sequence of events, one at a time.
pub open spec fn monitor_run(m: MonitorModel, es: Seq<MonitorEvent>) -> MonitorModel
    decreases es.len(),
{
    if es.len() == 0 {
        m
    } else {
        monitor_run(monitor_step(m, es[0]).0, es.skip(1))
    }
}

/// How many `Died` reports a sequence of events makes the monitor emit.
pub open spec fn died_count(m: MonitorModel, es: Seq<MonitorEvent>) -> nat
    decreases es.len(),
{
    if es.len() == 0 {
        0
    } else {
        (if monitor_step(m, es[0]).1 {
            1nat
        } else {
            0nat
        }) + died_count(monitor_step(m, es[0]).0, es.skip(1))
    }
}

/// A monitor that has declared death is inert: no later event changes it or
/// makes it report again.
pub proof fn lemma_dead_monitor_is_inert(m: MonitorModel, es: Seq<MonitorEvent>)
    requires
        m.dead,
    ensures
        monitor_run(m, es) == m,
        died_count(m, es) == 0,
    decreases es.len(),
{
    if es.len() > 0 {
        lemma_dead_monitor_is_inert(m, es.skip(1));
    }
}

/// Over any sequence of events whatsoever, a live monitor reports `Died` at
/// most once, and a dead one never again.
pub proof fn lemma_at_most_one_died(m: MonitorModel, es: Seq<MonitorEvent>)
    ensures
        m.dead ==> died_count(m, es) == 0,
        !m.dead ==> died_count(m, es) <= 1,
    decreases es.len(),
{
    if es.len() > 0 {
        if m.dead {
            lemma_dead_monitor_is_inert(m, es);
        } else if monitor_step(m, es[0]).1 {
            lemma_dead_monitor_is_inert(monitor_step(m, es[0]).0, es.skip(1));
        } else {
            lemma_at_most_one_died(monitor_step(m, es[0]).0, es.skip(1));
        }
    }
}

/// If no command at all arrives and some silent wait reaches the deadline,
/// the monitor reports `Died` exactly once over the whole sequence.
pub proof fn lemma_unfed_monitor_dies_exactly_once(m: MonitorModel, es: Seq<MonitorEvent>)
    requires
        !m.dead,
        forall|i: int| 0 <= i < es.len() ==> es[i] is Silence,
        exists|i: int| 0 <= i < es.len() && event_time(es[i]) >= m.deadline,
    ensures
        died_count(m, es) == 1,
    decreases es.len(),
{
    let witness = choose|i: int| 0 <= i < es.len() && event_time(es[i]) >= m.deadline;
    if event_time(es[0]) >= m.deadline {
        lemma_dead_monitor_is_inert(monitor_step(m, es[0]).0, es.skip(1));
    } else {
        assert(monitor_step(m, es[0]) == (m, false));
        assert(witness != 0);
        assert(es.skip(1)[witness - 1] == es[witness]);
        assert(forall|j: int| 0 <= j < es.skip(1).len() ==> es.skip(1)[j] is Silence);
        lemma_unfed_monitor_dies_exactly_once(m, es.skip(1));
    }
}

/// Every event in `es`, handled in order, is observed strictly before the
/// deadline in effect at the moment it is handled.
pub open spec fn all_events_before_deadline(m: MonitorModel, es: Seq<MonitorEvent>) -> bool
    decreases es.len(),
{
    es.len() == 0 || {
        &&& event_time(es[0]) < m.deadline
        &&& all_events_before_deadline(monitor_step(m, es[0]).0, es.skip(1))
    }
}

/// A sustained stream of events each observed strictly before the deadline
/// in effect — in particular, heartbeats spaced under the timeout window —
/// never produces a `Died` report.
pub proof fn lemma_timely_heartbeats_prevent_death(m: MonitorModel, es: Seq<MonitorEvent>)
    requires
        all_events_before_deadline(m, es),
    ensures
        died_count(m, es) == 0,
    decreases es.len(),
{
    if es.len() > 0 {
        lemma_timely_heartbeats_prevent_death(monitor_step(m, es[0]).0, es.skip(1));
    }
}

/// The heartbeat monitor's executable state, stamped in milliseconds on a
/// clock the caller supplies.
pub struct Monitor {
    /// The liveness window, in milliseconds.
    pub timeout_ms: u64,
    /// The absolute instant at which silence becomes fatal.
    pub deadline: u64,
    /// Whether the peer has already been declared dead.
    pub dead: bool,
}

impl Monitor {
    /// The mathematical state this monitor is in.
    pub open spec fn model(&self) -> MonitorModel {
        MonitorModel {
            timeout: self.timeout_ms as int,
            deadline: self.deadline as int,
            dead: self.dead,
        }
    }

    /// A fresh monitor whose first deadline is one full window from `now`.
    pub fn new(timeout_ms: u64, now: u64) -> (m: Self)
        requires
            now + timeout_ms <= u64::MAX,
        ensures
            m.model() == (MonitorModel {
                timeout: timeout_ms as int,
                deadline: now + timeout_ms,
                dead: false,
            }),
    {
        Monitor { timeout_ms, deadline: now + timeout_ms, dead: false }
    }

    /// A command arrived at `now`: the deadline moves to one full window
    /// after it. Arrival alone counts — the payload is ignored.
    pub fn on_feed(&mut self, now: u64)
        requires
            now + old(self).timeout_ms <= u64::MAX,
        ensures
            final(self).model() == monitor_step(
                old(self).model(),
                MonitorEvent::Feed(now as int),
            ).0,
            !old(self).dead ==> final(self).deadline == now + old(self).timeout_ms,
    {
        if !self.dead {
            self.deadline = now + self.timeout_ms;
        }
    }

    /// The bounded wait came back empty at `now`: report whether that makes
    /// the monitor declare the peer dead (it does exactly when the monitor
    /// was still live and `now` has reached the deadline).
    pub fn on_silence(&mut self, now: u64) -> (died: bool)
        ensures
            final(self).model() == monitor_step(
                old(self).model(),
                MonitorEvent::Silence(now as int),
            ).0,
            died == monitor_step(old(self).model(), MonitorEvent::Silence(now as int)).1,
            died == (!old(self).dead && now >= old(self).deadline),
    {
        if !self.dead && now >= self.deadline {
            self.dead = true;
            true
        } else {
            false
        }
    }
}

} // verus!
