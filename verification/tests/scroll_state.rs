use trench::primitives::ScrollState;


#[test]
fn defaults_are_zero() {
  let s = ScrollState::new();
  assert_eq!(s.offset(), 0);
  assert_eq!(s.max(), 0);
  assert_eq!(s.viewport_size(), 0);
}

#[test]
fn scroll_down_clamps_at_max() {
  let mut s = ScrollState::new();
  s.set_max(10);
  s.scroll_down(15);
  assert_eq!(s.offset(), 10);
}

#[test]
fn scroll_up_saturates_at_zero() {
  let mut s = ScrollState::new();
  s.set_max(10);
  s.scroll_up(5);
  assert_eq!(s.offset(), 0);
}

#[test]
fn page_down_uses_viewport_size() {
  let mut s = ScrollState::new();
  s.set_max(100);
  s.set_viewport(8);
  s.page_down();
  assert_eq!(s.offset(), 8);
  s.page_down();
  assert_eq!(s.offset(), 16);
}

#[test]
fn page_down_with_zero_viewport_steps_one() {
  let mut s = ScrollState::new();
  s.set_max(100);
  s.page_down();
  assert_eq!(s.offset(), 1);
}

#[test]
fn set_max_clamps_offset_when_shrinking() {
  let mut s = ScrollState::new();
  s.set_max(100);
  s.set_offset(50);
  s.set_max(20);
  assert_eq!(s.offset(), 20);
}

#[test]
fn set_offset_clamps_to_max() {
  let mut s = ScrollState::new();
  s.set_max(10);
  s.set_offset(50);
  assert_eq!(s.offset(), 10);
}

#[test]
fn reset_zeros_offset_keeps_max_and_viewport() {
  let mut s = ScrollState::new();
  s.set_max(100);
  s.set_viewport(10);
  s.set_offset(50);
  s.reset();
  assert_eq!(s.offset(), 0);
  assert_eq!(s.max(), 100);
  assert_eq!(s.viewport_size(), 10);
}

#[test]
fn scroll_to_bottom_lands_on_max() {
  let mut s = ScrollState::new();
  s.set_max(100);
  s.scroll_to_bottom();
  assert_eq!(s.offset(), 100);
}

#[test]
fn scroll_down_on_zero_max_is_noop() {
  let mut s = ScrollState::new();
  s.scroll_down(10);
  assert_eq!(s.offset(), 0);
}
