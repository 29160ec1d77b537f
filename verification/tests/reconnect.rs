use std::time::Duration;
use std::time::Instant;
use std::time::SystemTime;
use vollibrespot::reconnect::jitter_at;
use vollibrespot::reconnect::ReconnectPolicy;
use vollibrespot::time::subsec_at;
use vollibrespot::time::wall_clock_subsec;

fn for_test(
    base_delay: Duration,
    max_delay: Duration,
    stable_connection_window: Duration,
    max_jitter: Duration,
) -> ReconnectPolicy {
    ReconnectPolicy::with_settings(base_delay, max_delay, stable_connection_window, max_jitter)
}

#[test]
fn doubles_reconnect_delay_until_maximum() {
    let mut policy = for_test(
        Duration::from_secs(1),
        Duration::from_secs(8),
        Duration::from_secs(30),
        Duration::ZERO,
    );

    assert_eq!(policy.note_connect_error(), Duration::from_secs(1));
    assert_eq!(policy.note_connect_error(), Duration::from_secs(2));
    assert_eq!(policy.note_connect_error(), Duration::from_secs(4));
    assert_eq!(policy.note_connect_error(), Duration::from_secs(8));
    assert_eq!(policy.note_connect_error(), Duration::from_secs(8));
}

#[test]
fn stable_connection_resets_backoff_to_base_delay() {
    let mut policy = for_test(
        Duration::from_secs(1),
        Duration::from_secs(32),
        Duration::from_secs(30),
        Duration::ZERO,
    );

    assert_eq!(policy.note_connect_error(), Duration::from_secs(1));
    assert_eq!(policy.note_connect_error(), Duration::from_secs(2));
    assert_eq!(policy.note_connect_error(), Duration::from_secs(4));

    policy.apply_disconnect(Duration::from_secs(31));
    assert_eq!(policy.reconnect_wait(), Some(Duration::from_secs(1)));
}

#[test]
fn short_uptime_keeps_increasing_backoff() {
    let mut policy = for_test(
        Duration::from_secs(1),
        Duration::from_secs(16),
        Duration::from_secs(30),
        Duration::ZERO,
    );

    assert_eq!(policy.note_connect_error(), Duration::from_secs(1));
    assert_eq!(policy.note_connect_error(), Duration::from_secs(2));

    policy.apply_disconnect(Duration::from_secs(5));
    assert_eq!(policy.reconnect_wait(), Some(Duration::from_secs(4)));
}

#[test]
fn reset_clears_delay() {
    let mut policy = for_test(
        Duration::from_secs(1),
        Duration::from_secs(16),
        Duration::from_secs(30),
        Duration::ZERO,
    );

    policy.note_connect_error();
    policy.reset();

    assert_eq!(policy.reconnect_wait(), None);
}

#[test]
fn jitter_is_the_clock_reading_over_the_inclusive_bound() {
    let bound = Duration::from_millis(750);
    assert_eq!(jitter_at(bound, 0), Duration::ZERO);
    assert_eq!(jitter_at(bound, 750_000_000), Duration::from_nanos(750_000_000));
    assert_eq!(jitter_at(bound, 750_000_001), Duration::ZERO);
    assert_eq!(jitter_at(bound, 999_999_999), Duration::from_nanos(249_999_998));
    assert_eq!(jitter_at(Duration::ZERO, 5), Duration::ZERO);
    assert_eq!(jitter_at(Duration::MAX, 999_999_999), Duration::from_nanos(999_999_999));
}

#[test]
fn a_fresh_policy_asks_for_no_wait() {
    let policy = ReconnectPolicy::default();
    assert_eq!(policy.reconnect_wait(), None);
    assert_eq!(policy.wait_with_jitter(Duration::from_secs(1)), None);
    assert_eq!(policy.uptime(), Duration::ZERO);
}

#[test]
fn the_standard_policy_goes_from_one_second_to_a_minute() {
    let mut policy = ReconnectPolicy::default();
    let expected = [1, 2, 4, 8, 16, 32, 60, 60];
    for secs in expected {
        assert_eq!(policy.note_connect_error(), Duration::from_secs(secs));
    }
    let wait = policy.reconnect_wait().unwrap();
    assert!(wait >= Duration::from_secs(60));
    assert!(wait <= Duration::from_millis(60_750));
}

#[test]
fn a_wait_is_the_delay_and_the_jitter() {
    let mut policy = ReconnectPolicy::default();
    policy.note_connect_error();
    policy.note_connect_error();
    assert_eq!(
        policy.wait_with_jitter(Duration::from_millis(300)),
        Some(Duration::from_millis(2_300)),
    );
}

#[test]
fn the_first_delay_is_the_base_even_above_the_maximum() {
    let mut policy = for_test(
        Duration::from_secs(10),
        Duration::from_secs(3),
        Duration::from_secs(30),
        Duration::ZERO,
    );
    assert_eq!(policy.note_connect_error(), Duration::from_secs(10));
    assert_eq!(policy.note_connect_error(), Duration::from_secs(3));
    assert_eq!(policy.note_connect_error(), Duration::from_secs(3));
}

#[test]
fn a_maximum_of_zero_makes_the_delay_start_over() {
    let mut policy = for_test(
        Duration::from_secs(1),
        Duration::ZERO,
        Duration::from_secs(30),
        Duration::ZERO,
    );
    assert_eq!(policy.note_connect_error(), Duration::from_secs(1));
    assert_eq!(policy.note_connect_error(), Duration::ZERO);
    assert_eq!(policy.note_connect_error(), Duration::from_secs(1));
}

#[test]
fn a_disconnect_without_a_connection_counts_as_no_uptime() {
    let mut policy = ReconnectPolicy::default();
    assert_eq!(policy.note_spirc_disconnect(), Duration::ZERO);
    assert_eq!(policy.wait_with_jitter(Duration::ZERO), Some(Duration::from_secs(1)));
}

#[test]
fn a_window_of_zero_makes_every_connection_stable() {
    let mut policy = for_test(
        Duration::from_secs(1),
        Duration::from_secs(32),
        Duration::ZERO,
        Duration::ZERO,
    );
    policy.note_connect_error();
    policy.note_connect_error();
    policy.note_connected();
    policy.note_spirc_disconnect();
    assert_eq!(policy.reconnect_wait(), Some(Duration::from_secs(1)));
}

#[test]
fn a_connection_is_timed_from_when_it_was_made() {
    let mut policy = ReconnectPolicy::default();
    let made = Instant::now();
    policy.note_connected_at(made);
    assert!(policy.uptime() <= made.elapsed());
    policy.note_connected();
    assert!(policy.note_spirc_disconnect() < Duration::from_secs(20));
    assert_eq!(policy.uptime(), Duration::ZERO);
    assert_eq!(policy.wait_with_jitter(Duration::ZERO), Some(Duration::from_secs(1)));
}

#[test]
fn an_uptime_of_the_whole_window_is_stable() {
    let mut policy = ReconnectPolicy::default();
    policy.note_connect_error();
    policy.note_connect_error();
    policy.note_disconnect_after(Duration::from_secs(120));
    assert_eq!(policy.wait_with_jitter(Duration::ZERO), Some(Duration::from_secs(1)));
    policy.note_disconnect_after(Duration::new(119, 999_999_999));
    assert_eq!(policy.wait_with_jitter(Duration::ZERO), Some(Duration::from_secs(2)));
}

#[test]
fn failures_after_a_reset_start_from_the_base() {
    let mut policy = ReconnectPolicy::default();
    policy.note_connect_error();
    policy.note_connect_error();
    policy.reset();
    assert_eq!(policy.note_connect_error(), Duration::from_secs(1));
}

#[test]
fn jitter_keeps_to_its_bound() {
    let policy = ReconnectPolicy::default();
    for _ in 0..1_000 {
        assert!(policy.jitter() <= Duration::from_millis(750));
    }
    let steady = for_test(
        Duration::from_secs(1),
        Duration::from_secs(2),
        Duration::from_secs(3),
        Duration::ZERO,
    );
    assert_eq!(steady.jitter(), Duration::ZERO);
}

#[test]
fn the_wall_clock_shows_less_than_a_second() {
    for _ in 0..1_000 {
        assert!(wall_clock_subsec() < 1_000_000_000);
    }
}

#[test]
fn a_clock_reading_shows_its_fraction_of_a_second() {
    let epoch = SystemTime::UNIX_EPOCH;
    assert_eq!(subsec_at(epoch), 0);
    assert_eq!(subsec_at(epoch + Duration::new(1_700_000_000, 123_456_789)), 123_456_789);
    assert_eq!(subsec_at(epoch + Duration::new(3, 999_999_999)), 999_999_999);
    assert_eq!(subsec_at(epoch - Duration::new(3, 250)), 0);
}

#[test]
fn growth_stays_between_the_base_and_the_maximum() {
    let mut policy = ReconnectPolicy::default();
    for secs in [1, 2, 4, 8, 16, 32, 60, 60] {
        policy.increase_delay();
        assert_eq!(policy.wait_with_jitter(Duration::ZERO), Some(Duration::from_secs(secs)));
    }
}

#[test]
fn the_uptime_is_the_time_since_the_connection() {
    let mut policy = ReconnectPolicy::default();
    let made = Instant::now();
    while made.elapsed() < Duration::from_millis(5) {}
    policy.note_connected_at(made);
    let uptime = policy.note_spirc_disconnect();
    assert!(uptime >= Duration::from_millis(5));
    assert!(uptime <= made.elapsed());
}
