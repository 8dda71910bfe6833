use worker_bridge::monitor::Monitor;

#[test]
fn silence_before_the_deadline_is_not_fatal() {
    let mut m = Monitor::new(1000, 0);
    assert!(!m.on_silence(500));
    assert!(!m.on_silence(999));
    assert!(!m.dead);
}

#[test]
fn silence_reaching_the_deadline_declares_death_once() {
    let mut m = Monitor::new(1000, 0);
    assert!(m.on_silence(1000));
    assert!(m.dead);
    assert!(!m.on_silence(2000));
    assert!(!m.on_silence(3000));
}

#[test]
fn a_feed_strictly_before_the_deadline_resets_it() {
    let mut m = Monitor::new(1000, 0);
    m.on_feed(600);
    assert_eq!(m.deadline, 1600);
    assert!(!m.on_silence(1500));
    assert!(m.on_silence(1600));
}

#[test]
fn sustained_heartbeats_spaced_under_the_timeout_never_kill() {
    let mut m = Monitor::new(1000, 0);
    let mut now: u64 = 0;
    while now < 20_000 {
        now += 500;
        assert!(!m.on_silence(now - 1));
        m.on_feed(now);
        assert!(!m.dead);
    }
    assert!(!m.dead);
    assert!(m.on_silence(now + 1000));
}

#[test]
fn a_feed_after_death_does_not_revive_the_monitor() {
    let mut m = Monitor::new(100, 0);
    assert!(m.on_silence(100));
    m.on_feed(150);
    assert!(m.dead);
    assert!(!m.on_silence(10_000));
}
