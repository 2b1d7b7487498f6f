use trench::state::timing::{gate_step, DebounceState};

use std::time::{Duration, Instant};

/// Wait, without yielding the thread, until `d` has elapsed.
fn sleep(d: Duration) {
  let start = Instant::now();
  while start.elapsed() < d {}
}

#[test]
fn debounce_default_matches_pre_grouping_constants() {
  // Load-bearing: 50ms / 80ms were the constants the four flat
  // App fields shipped with before ADR-009.  Byte-equivalent
  // behaviour is the migration's correctness criterion.
  let d = DebounceState::default();
  assert_eq!(d.kbd_cooldown_ms, 50);
  assert_eq!(d.mouse_cooldown_ms, 80);
  assert!(d.last_kbd.is_none());
  assert!(d.last_mouse.is_none());
}

#[test]
fn first_kbd_scroll_is_always_accepted() {
  let mut d = DebounceState::default();
  assert!(d.try_kbd_scroll(), "first scroll must pass — last_kbd is None");
  assert!(d.last_kbd.is_some(), "timer must be set after acceptance");
}

#[test]
fn immediate_second_kbd_scroll_is_rejected() {
  // Witness for the cooldown gate: two scrolls back-to-back means
  // the second one falls inside the 50ms window and must be rejected.
  let mut d = DebounceState::default();
  assert!(d.try_kbd_scroll());
  assert!(!d.try_kbd_scroll(), "second within cooldown must be rejected");
}

#[test]
fn kbd_scroll_accepted_after_cooldown_elapses() {
  // Real-time test: sleep past the cooldown then retry. Uses a small
  // local cooldown override to keep the test under 20ms.
  let mut d =
    DebounceState { kbd_cooldown_ms: 5, ..DebounceState::default() };
  assert!(d.try_kbd_scroll());
  sleep(Duration::from_millis(10));
  assert!(d.try_kbd_scroll(), "scroll after cooldown must be accepted");
}

#[test]
fn kbd_and_mouse_gates_are_independent() {
  // Witness that the two cooldowns don't share state — a kbd scroll
  // shouldn't suppress a mouse scroll, even within the kbd cooldown.
  let mut d = DebounceState::default();
  assert!(d.try_kbd_scroll());
  assert!(d.try_mouse_scroll(), "mouse gate must be independent of kbd gate");
}

#[test]
fn gate_step_accepts_after_cooldown_and_restarts() {
  let now = Instant::now();
  let mut last: Option<Instant> = None;
  assert!(gate_step(&mut last, now, None, 50));
  assert_eq!(last, Some(now));
  let later = now + Duration::from_millis(10);
  assert!(!gate_step(&mut last, later, Some(10), 50));
  assert_eq!(last, Some(now));
  assert!(gate_step(&mut last, later, Some(50), 50));
  assert_eq!(last, Some(later));
}
