use std::sync::mpsc;
use trench::primitives::async_load::RecvOutcome;
use trench::primitives::AsyncLoadState;


#[test]
fn defaults_to_idle() {
  let s: AsyncLoadState<i32> = AsyncLoadState::new();
  assert!(s.is_idle());
  assert!(!s.is_loading());
  assert!(!s.is_ready());
}

#[test]
fn start_transitions_to_loading() {
  let (_tx, rx) = mpsc::channel::<i32>();
  let mut s = AsyncLoadState::new();
  s.start(rx);
  assert!(s.is_loading());
}

#[test]
fn poll_with_value_transitions_to_ready() {
  let (tx, rx) = mpsc::channel();
  let mut s = AsyncLoadState::new();
  s.start(rx);
  tx.send(42).unwrap();
  s.poll();
  assert!(s.is_ready());
  assert_eq!(s.result(), Some(&42));
}

#[test]
fn poll_without_value_stays_loading() {
  let (_tx, rx) = mpsc::channel::<i32>();
  let mut s = AsyncLoadState::new();
  s.start(rx);
  s.poll();
  assert!(s.is_loading());
}

#[test]
fn poll_after_sender_dropped_transitions_to_disconnected() {
  let (tx, rx) = mpsc::channel::<i32>();
  let mut s = AsyncLoadState::new();
  s.start(rx);
  drop(tx);
  s.poll();
  assert!(s.is_disconnected());
}

#[test]
fn take_returns_value_and_resets() {
  let (tx, rx) = mpsc::channel();
  let mut s = AsyncLoadState::new();
  s.start(rx);
  tx.send("hi".to_string()).unwrap();
  s.poll();
  assert_eq!(s.take(), Some("hi".to_string()));
  assert!(s.is_idle());
}

#[test]
fn take_when_not_ready_returns_none_and_preserves_state() {
  let mut s: AsyncLoadState<i32> = AsyncLoadState::new();
  assert_eq!(s.take(), None);
  assert!(s.is_idle());
}

#[test]
fn poll_on_idle_is_noop() {
  let mut s: AsyncLoadState<i32> = AsyncLoadState::new();
  s.poll();
  assert!(s.is_idle());
}

#[test]
fn reset_drops_receiver_and_returns_idle() {
  let (_tx, rx) = mpsc::channel::<i32>();
  let mut s = AsyncLoadState::new();
  s.start(rx);
  s.reset();
  assert!(s.is_idle());
}

#[test]
fn reset_after_ready_returns_idle() {
  let (tx, rx) = mpsc::channel();
  let mut s = AsyncLoadState::new();
  s.start(rx);
  tx.send(1).unwrap();
  s.poll();
  s.reset();
  assert!(s.is_idle());
}

#[test]
fn advance_maps_each_receive_outcome() {
  let (_tx, rx) = mpsc::channel::<u32>();
  let mut s: AsyncLoadState<u32> = AsyncLoadState::new();
  s.start(rx);
  s.advance(RecvOutcome::Empty);
  assert!(s.is_loading());
  s.advance(RecvOutcome::Value(7));
  assert!(s.is_ready());
  assert_eq!(s.take(), Some(7));
  s.advance(RecvOutcome::Value(9));
  assert!(s.is_idle());
  let (_tx2, rx2) = mpsc::channel::<u32>();
  s.start(rx2);
  s.advance(RecvOutcome::Disconnected);
  assert!(s.is_disconnected());
}
