use trench::state::timing::LeaderState;

use std::time::{Duration, Instant};

/// Wait, without yielding the thread, until `d` has elapsed.
fn sleep(d: Duration) {
  let start = Instant::now();
  while start.elapsed() < d {}
}

#[test]
fn leader_default_matches_pre_grouping_constants() {
  // Load-bearing: 1000ms was the constant the flat App field shipped
  // with pre-grouping.  Byte-equivalent behaviour is the correctness
  // criterion for ADR-009 migrations.
  let l = LeaderState::default();
  assert!(!l.is_active());
  assert!(l.activated_at.is_none());
  assert_eq!(l.timeout_ms, 1000);
}

#[test]
fn activate_sets_active_and_timestamp() {
  let mut l = LeaderState::default();
  l.activate();
  assert!(l.is_active());
  assert!(l.activated_at.is_some());
}

#[test]
fn deactivate_clears_active() {
  let mut l = LeaderState::default();
  l.activate();
  l.deactivate();
  assert!(!l.is_active());
}

#[test]
fn expire_is_noop_within_timeout() {
  // Witness: activate, immediately expire-check, leader is still on.
  // The pre-grouping bug class would be "expire fires too eagerly."
  let mut l = LeaderState::default();
  l.activate();
  l.expire_if_timed_out();
  assert!(l.is_active(), "leader must survive within the timeout window");
}

#[test]
fn expire_disarms_after_timeout_elapses() {
  // Real-time test with a short cooldown override so it runs fast.
  let mut l = LeaderState { timeout_ms: 5, ..LeaderState::default() };
  l.activate();
  sleep(Duration::from_millis(10));
  l.expire_if_timed_out();
  assert!(!l.is_active(), "leader must disarm after timeout elapsed");
}

#[test]
fn expire_is_noop_when_inactive() {
  // Witness: expiring an already-disarmed leader does nothing.  The
  // gate should not, e.g., reset `activated_at` to something stale or
  // set `active` to anything other than false.
  let mut l = LeaderState::default();
  l.expire_if_timed_out();
  assert!(!l.is_active());
  assert!(l.activated_at.is_none());
}

#[test]
fn is_active_does_not_mutate() {
  // Read-purity: calling is_active many times after the timeout has
  // elapsed but before expire_if_timed_out runs still returns true.
  // This is intentional — separating read from side effect lets the
  // footer renderer ask "is leader on?" without mutating state.
  let mut l = LeaderState { timeout_ms: 5, ..LeaderState::default() };
  l.activate();
  sleep(Duration::from_millis(10));
  assert!(l.is_active(), "is_active must not auto-expire");
  assert!(l.is_active(), "is_active must remain pure across calls");
}

#[test]
fn expire_after_disarms_only_past_the_timeout() {
  let mut l = LeaderState::default();
  l.activate();
  l.expire_after(1000);
  assert!(l.is_active());
  l.expire_after(1001);
  assert!(!l.is_active());
  assert!(l.activated_at.is_some());
  let mut idle = LeaderState::default();
  idle.expire_after(5000);
  assert!(!idle.is_active());
}
