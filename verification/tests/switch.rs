use rusty_switch::state::{heartbeat, heartbeat_response, SwitchState};
use rusty_switch::token::{constant_time_eq, generate_token};

const DAY: u64 = 86400;
const HOUR: u64 = 3600;

fn switch(t0: u64) -> SwitchState {
    SwitchState::new(String::from("sekrit-token-123"), t0)
}

#[test]
fn heartbeat_with_correct_token_succeeds_and_advances() {
    let mut s = switch(1_000);
    assert!(s.record_heartbeat("sekrit-token-123", 5_000));
    assert_eq!(s.last_heartbeat_time(), 5_000);
    assert!(s.is_armed());
}

#[test]
fn heartbeat_never_moves_time_backward() {
    let mut s = switch(9_000);
    assert!(s.record_heartbeat("sekrit-token-123", 4_000));
    assert_eq!(s.last_heartbeat_time(), 9_000);
}

#[test]
fn heartbeat_with_wrong_token_changes_nothing() {
    let mut s = switch(1_000);
    assert!(!s.record_heartbeat("sekrit-token-124", 5_000));
    assert!(!s.record_heartbeat("", 5_000));
    assert_eq!(s.last_heartbeat_time(), 1_000);
    assert!(s.is_armed());
}

#[test]
fn heartbeat_twice_is_idempotent_and_leaves_armed() {
    let mut s = switch(1_000);
    assert!(s.record_heartbeat("sekrit-token-123", 2_000));
    assert!(s.record_heartbeat("sekrit-token-123", 2_001));
    assert_eq!(s.last_heartbeat_time(), 2_001);
    assert!(s.is_armed());
}

#[test]
fn elapsed_time_monotone_in_clock_and_reset_by_heartbeat() {
    let mut s = switch(1_000);
    let before = s.time_since_last_heartbeat(50_000);
    assert_eq!(before, 49_000);
    assert!(s.time_since_last_heartbeat(60_000) >= before);
    assert!(s.record_heartbeat("sekrit-token-123", 50_000));
    let after = s.time_since_last_heartbeat(50_000);
    assert_eq!(after, 0);
    assert!(after <= before);
    // A clock reading behind the heartbeat saturates at zero.
    assert_eq!(s.time_since_last_heartbeat(10), 0);
}

#[test]
fn try_fire_returns_true_at_most_once() {
    let mut s = switch(0);
    assert!(s.try_fire());
    assert!(!s.try_fire());
    assert!(!s.try_fire());
    assert!(!s.is_armed());
}

#[test]
fn threshold_boundary_fires_at_exactly_seven_days() {
    let t0: u64 = 10_000;
    let mut s = switch(t0);
    assert!(!s.watchdog_tick(t0 + 6 * DAY + 23 * HOUR, 7));
    assert!(s.is_armed());
    assert!(s.watchdog_tick(t0 + 7 * DAY, 7));
    assert!(!s.is_armed());
}

#[test]
fn scenario_no_heartbeat_for_25_hours_fires_exactly_once() {
    let t0: u64 = 1_700_000_000;
    let mut s = switch(t0);
    assert!(!s.watchdog_tick(t0 + 12 * HOUR, 1));
    let fired = s.watchdog_tick(t0 + 25 * HOUR, 1);
    assert!(fired);
    // Later ticks observe the threshold still crossed but never fire again.
    assert!(!s.watchdog_tick(t0 + 26 * HOUR, 1));
    assert!(!s.watchdog_tick(t0 + 48 * HOUR, 1));
}

#[test]
fn scenario_late_heartbeat_defers_firing_by_a_full_day() {
    let t0: u64 = 1_700_000_000;
    let mut s = switch(t0);
    assert!(s.record_heartbeat("sekrit-token-123", t0 + 23 * HOUR));
    // One day after start, but only an hour after the heartbeat.
    assert!(!s.watchdog_tick(t0 + 24 * HOUR, 1));
    assert!(!s.watchdog_tick(t0 + 23 * HOUR + DAY - 1, 1));
    assert!(s.watchdog_tick(t0 + 23 * HOUR + DAY, 1));
}

#[test]
fn nonpositive_threshold_fires_immediately() {
    let t0: u64 = 500;
    let mut s = switch(t0);
    assert!(s.watchdog_tick(t0, 0));
    let mut s2 = switch(t0);
    assert!(s2.watchdog_tick(t0, -3));
}

#[test]
fn heartbeat_endpoint_replies_with_fixed_indicators() {
    let mut s = switch(1_000);
    assert_eq!(heartbeat(&mut s, "sekrit-token-123", 2_000), "Heartbeat success.");
    assert_eq!(s.last_heartbeat_time(), 2_000);
    assert_eq!(heartbeat(&mut s, "wrong", 3_000), "Heartbeat failure.");
    assert_eq!(s.last_heartbeat_time(), 2_000);
    assert_eq!(heartbeat_response(true), "Heartbeat success.");
    assert_eq!(heartbeat_response(false), "Heartbeat failure.");
}

#[test]
fn generated_token_is_sixteen_alphanumerics() {
    let t = generate_token();
    assert_eq!(t.chars().count(), 16);
    assert!(t.chars().all(|c| c.is_ascii_alphanumeric()));
    // Two fresh tokens collide with probability 62^-16: equality would
    // mean the generator ignored its randomness.
    let u = generate_token();
    assert!(t != u);
}

#[test]
fn constant_time_comparison_agrees_with_equality() {
    assert!(constant_time_eq("", ""));
    assert!(constant_time_eq("abc", "abc"));
    assert!(!constant_time_eq("abc", "abd"));
    assert!(!constant_time_eq("abc", "ab"));
    assert!(!constant_time_eq("abc", "abcd"));
}
