//! The periodic-ticker worker: on every timer tick it adds the current
//! per-tick increment (`delta`) to its accumulator and reports the new value;
//! consuming a `ChangeDelta` command replaces the increment. The accumulator
//! and the increment are owned by the worker alone — the front end only ever
//! observes the derived `Update` messages.

use vstd::prelude::*;

use crate::message::{Command, Status};

verus! {

/// The mathematical state of the ticker worker.
pub ghost struct TickerModel {
    /// The accumulated value.
    pub current: int,
    /// The amount added on each timer tick.
    pub delta: int,
}

/// One event the ticker worker races for and then handles to completion.
pub ghost enum TickerEvent {
    /// The periodic timer fired.
    Tick,
    /// A `ChangeDelta` command with this payload was consumed.
    SetDelta(int),
}

/// How one event transforms the ticker state: a tick adds `delta` to the
/// accumulator; a consumed `ChangeDelta` replaces `delta`.
pub open spec fn ticker_step(m: TickerModel, e: TickerEvent) -> TickerModel {
    match e {
        TickerEvent::Tick => TickerModel { current: m.current + m.delta, delta: m.delta },
        TickerEvent::SetDelta(n) => TickerModel { current: m.current, delta: n },
    }
}

/// The state after handling a whole sequence of events, one at a time.
pub open spec fn ticker_run(m: TickerModel, es: Seq<TickerEvent>) -> TickerModel
    decreases es.len(),
{
    if es.len() == 0 {
        m
    } else {
        ticker_run(ticker_step(m, es[0]), es.skip(1))
    }
}

/// The sum, over the ticks in `es`, of the `delta` value in effect at each
/// tick boundary.
pub open spec fn effective_delta_sum(m: TickerModel, es: Seq<TickerEvent>) -> int
    decreases es.len(),
{
    if es.len() == 0 {
        0
    } else {
        let here = match es[0] {
            TickerEvent::Tick => m.delta,
            TickerEvent::SetDelta(_) => 0,
        };
        here + effective_delta_sum(ticker_step(m, es[0]), es.skip(1))
    }
}

/// For every interleaving of `ChangeDelta` commands and timer ticks, the
/// accumulator ends at its starting value plus the sum of the `delta` values
/// in effect at each tick boundary — the outcome is determined by the
/// interleaving alone.
pub proof fn lemma_accumulator_sums_deltas(m: TickerModel, es: Seq<TickerEvent>)
    ensures
        ticker_run(m, es).current == m.current + effective_delta_sum(m, es),
    decreases es.len(),
{
    if es.len() > 0 {
        lemma_accumulator_sums_deltas(ticker_step(m, es[0]), es.skip(1));
    }
}

/// The ticker worker's state: exclusively owned and mutated by the worker
/// loop.
pub struct Ticker {
    /// The accumulated value.
    pub current: i64,
    /// The amount added on each timer tick.
    pub delta: i64,
}

impl Ticker {
    /// The mathematical state this worker is in.
    pub open spec fn model(&self) -> TickerModel {
        TickerModel { current: self.current as int, delta: self.delta as int }
    }

    /// A fresh worker: accumulator at zero, increment zero until a
    /// `ChangeDelta` arrives.
    pub fn new() -> (t: Self)
        ensures
            t.current == 0,
            t.delta == 0,
    {
        Ticker { current: 0, delta: 0 }
    }

    /// Handle one timer tick: add `delta` to the accumulator and report the
    /// new value as an `Update` status.
    pub fn on_tick(&mut self) -> (st: Status)
        requires
            i64::MIN <= old(self).current + old(self).delta <= i64::MAX,
        ensures
            final(self).model() == ticker_step(old(self).model(), TickerEvent::Tick),
            st == Status::Update(final(self).current),
    {
        self.current = self.current + self.delta;
        Status::Update(self.current)
    }

    /// Handle one consumed command: `ChangeDelta(n)` replaces the per-tick
    /// increment; any other command is ignored by this worker variant.
    pub fn on_command(&mut self, c: Command)
        ensures
            match c {
                Command::ChangeDelta(n) => final(self).model() == ticker_step(
                    old(self).model(),
                    TickerEvent::SetDelta(n as int),
                ),
                Command::HeartBeat => *final(self) == *old(self),
            },
    {
        match c {
            Command::ChangeDelta(n) => {
                self.delta = n;
            },
            Command::HeartBeat => {},
        }
    }
}

} // verus!
