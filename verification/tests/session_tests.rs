use worker_bridge::message::{Command, SendError, Status};
use worker_bridge::session::Session;

#[test]
fn a_fresh_cell_is_idle_and_refuses_commands() {
    let mut s = Session::new();
    assert!(!s.is_active());
    assert_eq!(s.try_drain_status(), None);
    assert_eq!(s.send_command(Command::HeartBeat), Err(SendError::Closed));
}

#[test]
fn quiet_past_the_timeout_yields_exactly_one_died() {
    let mut s = Session::new();
    s.start_session(1000, 0, 128);
    assert_eq!(s.worker_step(1200), Some(Status::Died));
    assert_eq!(s.try_drain_status(), Some(Status::Died));
    assert_eq!(s.try_drain_status(), None);
    assert_eq!(s.worker_step(1300), None);
    assert_eq!(s.worker_step(2400), None);
}

#[test]
fn heartbeats_under_the_timeout_keep_the_session_alive() {
    let mut s = Session::new();
    s.start_session(1000, 0, 128);
    let mut now: u64 = 0;
    while now < 10_000 {
        now += 500;
        assert_eq!(s.send_command(Command::HeartBeat), Ok(()));
        assert_eq!(s.worker_step(now), None);
        assert_eq!(s.try_drain_status(), None);
    }
    assert!(s.is_active());
}

#[test]
fn observing_died_transitions_the_session_to_idle() {
    let mut s = Session::new();
    s.start_session(1000, 0, 128);
    assert!(s.is_active());
    assert_eq!(s.worker_step(1000), Some(Status::Died));
    assert!(s.is_active());
    assert_eq!(s.try_drain_status(), Some(Status::Died));
    assert!(!s.is_active());
    assert_eq!(s.send_command(Command::HeartBeat), Err(SendError::Closed));
}

#[test]
fn restarting_after_death_hands_out_a_fresh_independent_bridge() {
    let mut s = Session::new();
    s.start_session(1000, 0, 128);
    assert_eq!(s.send_command(Command::HeartBeat), Ok(()));
    assert_eq!(s.worker_step(2000), None);
    assert_eq!(s.worker_step(4000), Some(Status::Died));
    assert_eq!(s.try_drain_status(), Some(Status::Died));
    assert!(!s.is_active());

    s.start_session(1000, 5000, 128);
    assert!(s.is_active());
    assert_eq!(s.try_drain_status(), None);
    assert_eq!(s.send_command(Command::HeartBeat), Ok(()));
    assert_eq!(s.worker_step(5500), None);
    assert_eq!(s.worker_step(6500), Some(Status::Died));
}

#[test]
fn a_heartbeat_consumed_in_time_resets_the_deadline() {
    let mut s = Session::new();
    s.start_session(1000, 0, 16);
    assert_eq!(s.send_command(Command::HeartBeat), Ok(()));
    assert_eq!(s.worker_step(900), None);
    assert_eq!(s.worker_step(1800), None);
    assert_eq!(s.worker_step(1900), Some(Status::Died));
}

#[test]
fn explicit_teardown_returns_the_session_to_idle() {
    let mut s = Session::new();
    s.start_session(1000, 0, 16);
    assert!(s.is_active());
    s.end_session();
    assert!(!s.is_active());
    assert_eq!(s.send_command(Command::HeartBeat), Err(SendError::Closed));
    assert_eq!(s.worker_step(5000), None);
    assert_eq!(s.try_drain_status(), None);
    s.end_session();
    assert!(!s.is_active());
}

#[test]
fn command_backpressure_in_a_session_is_a_typed_error() {
    let mut s = Session::new();
    s.start_session(1000, 0, 1);
    assert_eq!(s.send_command(Command::HeartBeat), Ok(()));
    assert_eq!(s.send_command(Command::HeartBeat), Err(SendError::Full));
    assert_eq!(s.worker_step(100), None);
    assert_eq!(s.send_command(Command::HeartBeat), Ok(()));
}
