use std::time::Duration;
use std::time::Instant;
use vollibrespot::supervisor::Action;
use vollibrespot::supervisor::DaemonEvent;
use vollibrespot::supervisor::Next;
use vollibrespot::supervisor::Phase;
use vollibrespot::supervisor::Supervisor;

fn step(daemon: &mut Supervisor<&'static str>, event: DaemonEvent<&'static str>) -> Action {
    daemon.step_at(event, Instant::now(), Duration::from_secs(5), Duration::from_millis(100))
}

fn slept(action: &Action) -> Duration {
    match action.next {
        Next::Sleep(wait) => wait,
        _ => panic!("no wait: {:?}", action),
    }
}

#[test]
fn given_credentials_are_used_at_once() {
    let (daemon, next) = Supervisor::start(Some("given"));
    assert!(matches!(next, Next::Connect));
    assert_eq!(daemon.phase(), Phase::Connecting);
    assert_eq!(daemon.credentials(), Some(&"given"));
}

#[test]
fn without_credentials_they_are_discovered() {
    let (mut daemon, next) = Supervisor::start(None);
    assert!(matches!(next, Next::Discover));
    assert_eq!(daemon.credentials(), None);
    let action = step(&mut daemon, DaemonEvent::Discovered("found"));
    assert!(matches!(action.next, Next::Connect));
    assert!(!action.shut_down_spirc);
    assert_eq!(daemon.credentials(), Some(&"found"));
}

#[test]
fn an_end_of_discovery_ends_the_daemon() {
    let (mut daemon, _) = Supervisor::<&'static str>::start(None);
    let action = step(&mut daemon, DaemonEvent::DiscoveryEnded);
    assert!(matches!(action.next, Next::End));
    assert!(!action.shut_down_spirc);
    assert_eq!(daemon.phase(), Phase::Ended);
}

#[test]
fn failed_attempts_back_off_with_the_given_credentials() {
    let (mut daemon, _) = Supervisor::start(Some("given"));
    for secs in [1, 2, 4, 8, 16, 32, 60, 60] {
        let action = step(&mut daemon, DaemonEvent::ConnectFailed);
        assert_eq!(slept(&action), Duration::from_secs(secs) + Duration::from_millis(100));
        assert_eq!(daemon.phase(), Phase::BackingOff);
        let action = step(&mut daemon, DaemonEvent::WaitOver);
        assert!(matches!(action.next, Next::Connect));
        assert_eq!(daemon.credentials(), Some(&"given"));
    }
}

#[test]
fn discovered_credentials_that_fail_are_dropped() {
    let (mut daemon, _) = Supervisor::start(None);
    step(&mut daemon, DaemonEvent::Discovered("wrong"));
    let action = step(&mut daemon, DaemonEvent::ConnectFailed);
    assert!(matches!(action.next, Next::Discover));
    assert_eq!(daemon.credentials(), None);
    let action = step(&mut daemon, DaemonEvent::Discovered("right"));
    assert_eq!(slept(&action), Duration::from_millis(1_100));
    step(&mut daemon, DaemonEvent::WaitOver);
    assert_eq!(daemon.credentials(), Some(&"right"));
    let action = step(&mut daemon, DaemonEvent::Connected);
    assert!(matches!(action.next, Next::Serve));
    assert_eq!(daemon.phase(), Phase::Serving);
}

#[test]
fn a_lost_session_is_resumed_with_the_credentials_that_worked() {
    let (mut daemon, _) = Supervisor::start(None);
    step(&mut daemon, DaemonEvent::Discovered("found"));
    step(&mut daemon, DaemonEvent::Connected);
    let action = step(&mut daemon, DaemonEvent::SpircEnded);
    assert_eq!(action.uptime, Some(Duration::from_secs(5)));
    assert!(!action.shut_down_spirc);
    assert_eq!(slept(&action), Duration::from_millis(1_100));
    step(&mut daemon, DaemonEvent::WaitOver);
    let action = step(&mut daemon, DaemonEvent::ConnectFailed);
    assert_eq!(slept(&action), Duration::from_millis(2_100));
    assert_eq!(daemon.credentials(), Some(&"found"));
}

#[test]
fn a_stable_session_brings_the_wait_back_to_the_base() {
    let (mut daemon, _) = Supervisor::start(Some("given"));
    for _ in 0..5 {
        step(&mut daemon, DaemonEvent::ConnectFailed);
        step(&mut daemon, DaemonEvent::WaitOver);
    }
    step(&mut daemon, DaemonEvent::Connected);
    let action = daemon.step_at(
        DaemonEvent::SpircEnded,
        Instant::now(),
        Duration::from_secs(120),
        Duration::ZERO,
    );
    assert_eq!(slept(&action), Duration::from_secs(1));
}

#[test]
fn new_credentials_replace_a_session_without_a_wait() {
    let (mut daemon, _) = Supervisor::start(Some("given"));
    step(&mut daemon, DaemonEvent::ConnectFailed);
    step(&mut daemon, DaemonEvent::WaitOver);
    step(&mut daemon, DaemonEvent::Connected);
    let action = step(&mut daemon, DaemonEvent::Discovered("new"));
    assert!(action.shut_down_spirc);
    assert_eq!(action.uptime, None);
    assert!(matches!(action.next, Next::Connect));
    assert_eq!(daemon.credentials(), Some(&"new"));
    let action = step(&mut daemon, DaemonEvent::ConnectFailed);
    assert_eq!(slept(&action), Duration::from_millis(1_100));
    assert_eq!(daemon.credentials(), Some(&"new"));
}

#[test]
fn an_interrupt_shuts_down_and_ends() {
    let (mut daemon, _) = Supervisor::start(Some("given"));
    step(&mut daemon, DaemonEvent::Connected);
    let action = step(&mut daemon, DaemonEvent::Interrupted);
    assert!(action.shut_down_spirc);
    assert!(matches!(action.next, Next::End));
    assert_eq!(daemon.phase(), Phase::Ended);
}

#[test]
fn waits_by_the_clock_are_bounded() {
    let (mut daemon, _) = Supervisor::start(Some("given"));
    for _ in 0..20 {
        let action = daemon.step(DaemonEvent::ConnectFailed);
        let wait = slept(&action);
        assert!(wait >= Duration::from_secs(1));
        assert!(wait <= Duration::from_millis(60_750));
        daemon.step(DaemonEvent::WaitOver);
    }
    daemon.step(DaemonEvent::Connected);
    let action = daemon.step(DaemonEvent::SpircEnded);
    assert!(action.uptime.unwrap() < Duration::from_secs(20));
}
