use layline::liveness::{Liveness, WatchStep, Watchdog};

#[test]
fn close_reports_only_the_first_call() {
    let mut live = Liveness::new();
    assert!(live.open);
    assert!(live.close());
    assert!(!live.open);
    assert!(!live.close());
    assert!(!live.open);
}

#[test]
fn heartbeat_counts_and_wraps() {
    let mut live = Liveness::new();
    live.beat();
    assert_eq!(live.heartbeat, 1);
    live.heartbeat = u64::MAX;
    live.beat();
    assert_eq!(live.heartbeat, 0);
    assert!(live.open);
}

#[test]
fn idle_session_expires_after_the_timeout() {
    let live = Liveness::new();
    let (mut dog, step) = Watchdog::start(&live);
    assert!(matches!(step, WatchStep::Sleep(1)));
    for _ in 0..3 {
        assert!(matches!(dog.tick(3, &live), WatchStep::Sleep(1)));
    }
    assert!(matches!(dog.tick(3, &live), WatchStep::Expire));
}

#[test]
fn zero_timeout_expires_at_the_first_idle_look() {
    let live = Liveness::new();
    let (mut dog, _) = Watchdog::start(&live);
    assert!(matches!(dog.tick(0, &live), WatchStep::Expire));
}

#[test]
fn activity_starts_the_count_again() {
    let mut live = Liveness::new();
    let (mut dog, _) = Watchdog::start(&live);
    for _ in 0..5 {
        assert!(matches!(dog.tick(1, &live), WatchStep::Sleep(1)));
        live.beat();
        assert!(matches!(dog.tick(1, &live), WatchStep::Sleep(1)));
    }
    assert!(matches!(dog.tick(1, &live), WatchStep::Sleep(1)));
    assert!(matches!(dog.tick(1, &live), WatchStep::Expire));
}

#[test]
fn watch_stops_with_the_session() {
    let mut live = Liveness::new();
    let (mut dog, _) = Watchdog::start(&live);
    live.beat();
    live.close();
    assert!(matches!(dog.tick(10, &live), WatchStep::Stop));
    let (_, step) = Watchdog::start(&live);
    assert!(matches!(step, WatchStep::Stop));
}

#[test]
fn largest_timeout_does_not_overflow() {
    let live = Liveness::new();
    let mut dog = Watchdog {
        idle_count: u32::MAX - 1,
        baseline: 0,
    };
    assert!(matches!(dog.tick(u32::MAX, &live), WatchStep::Sleep(1)));
    assert_eq!(dog.idle_count, u32::MAX);
    assert!(matches!(dog.tick(u32::MAX, &live), WatchStep::Expire));
}
