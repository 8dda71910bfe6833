use worker_bridge::bridge::TickerBridge;
use worker_bridge::message::{Command, SendError, Status};
use worker_bridge::ticker::Ticker;

#[test]
fn accumulator_adds_delta_once_per_tick() {
    let mut t = Ticker::new();
    assert_eq!(t.current, 0);
    assert_eq!(t.delta, 0);
    t.on_command(Command::ChangeDelta(2));
    assert_eq!(t.on_tick(), Status::Update(2));
    assert_eq!(t.on_tick(), Status::Update(4));
    assert_eq!(t.on_tick(), Status::Update(6));
    assert_eq!(t.current, 6);
}

#[test]
fn accumulator_follows_delta_changes_between_ticks() {
    let mut t = Ticker::new();
    t.on_command(Command::ChangeDelta(1));
    assert_eq!(t.on_tick(), Status::Update(1));
    t.on_command(Command::ChangeDelta(5));
    assert_eq!(t.on_tick(), Status::Update(6));
    t.on_command(Command::ChangeDelta(-6));
    assert_eq!(t.on_tick(), Status::Update(0));
    assert_eq!(t.current, 0);
}

#[test]
fn heartbeat_is_ignored_by_the_ticker_worker() {
    let mut t = Ticker::new();
    t.on_command(Command::ChangeDelta(3));
    t.on_command(Command::HeartBeat);
    assert_eq!(t.delta, 3);
    assert_eq!(t.on_tick(), Status::Update(3));
}

#[test]
fn change_delta_then_three_ticks_yields_arithmetic_progression() {
    let mut b = TickerBridge::new(128);
    assert_eq!(b.send_command(Command::ChangeDelta(2)), Ok(()));
    assert_eq!(b.worker_poll_command(), Some(Command::ChangeDelta(2)));
    assert_eq!(b.worker_tick(), Ok(()));
    assert_eq!(b.worker_tick(), Ok(()));
    assert_eq!(b.worker_tick(), Ok(()));
    assert_eq!(b.try_drain_status(), Some(Status::Update(2)));
    assert_eq!(b.try_drain_status(), Some(Status::Update(4)));
    assert_eq!(b.try_drain_status(), Some(Status::Update(6)));
    assert_eq!(b.try_drain_status(), None);
    assert_eq!(b.last_update(), Some(6));
}

#[test]
fn poll_drain_applies_at_most_one_status_per_invocation() {
    let mut b = TickerBridge::new(16);
    assert_eq!(b.send_command(Command::ChangeDelta(1)), Ok(()));
    assert_eq!(b.worker_poll_command(), Some(Command::ChangeDelta(1)));
    assert_eq!(b.worker_tick(), Ok(()));
    assert_eq!(b.worker_tick(), Ok(()));
    assert_eq!(b.try_drain_status(), Some(Status::Update(1)));
    assert_eq!(b.last_update(), Some(1));
    assert_eq!(b.try_drain_status(), Some(Status::Update(2)));
    assert_eq!(b.last_update(), Some(2));
}

#[test]
fn tick_against_full_status_queue_reports_backpressure() {
    let mut b = TickerBridge::new(1);
    assert_eq!(b.worker_tick(), Ok(()));
    assert_eq!(b.worker_tick(), Err(SendError::Full));
    assert_eq!(b.try_drain_status(), Some(Status::Update(0)));
    assert_eq!(b.worker_tick(), Ok(()));
}

#[test]
fn closing_the_command_side_refuses_later_sends() {
    let mut b = TickerBridge::new(4);
    assert_eq!(b.send_command(Command::ChangeDelta(7)), Ok(()));
    b.close_commands();
    assert!(b.commands_closed());
    assert_eq!(b.send_command(Command::ChangeDelta(8)), Err(SendError::Closed));
    assert_eq!(b.worker_poll_command(), Some(Command::ChangeDelta(7)));
    assert_eq!(b.worker_poll_command(), None);
}

#[test]
fn command_queue_at_capacity_refuses_the_next_send() {
    let mut b = TickerBridge::new(1);
    assert_eq!(b.send_command(Command::ChangeDelta(1)), Ok(()));
    assert_eq!(b.send_command(Command::ChangeDelta(2)), Err(SendError::Full));
    assert_eq!(b.worker_poll_command(), Some(Command::ChangeDelta(1)));
}
