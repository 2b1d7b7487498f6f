use trench::primitives::TextInputState;


#[test]
fn defaults_empty_unfocused_no_mirror() {
  let s = TextInputState::new();
  assert!(s.is_empty());
  assert!(!s.is_focused());
  assert_eq!(s.buffer(), "");
  assert_eq!(s.lower(), "");
}

#[test]
fn push_and_pop() {
  let mut s = TextInputState::new();
  s.push_char('a');
  s.push_char('B');
  assert_eq!(s.buffer(), "aB");
  assert_eq!(s.pop_char(), Some('B'));
  assert_eq!(s.buffer(), "a");
}

#[test]
fn pop_on_empty_returns_none() {
  let mut s = TextInputState::new();
  assert_eq!(s.pop_char(), None);
}

#[test]
fn clear_resets_buffer_and_mirror() {
  let mut s = TextInputState::with_lower_mirror();
  s.push_char('A');
  s.push_char('b');
  assert_eq!(s.lower(), "ab");
  s.clear();
  assert!(s.is_empty());
  assert_eq!(s.lower(), "");
}

#[test]
fn set_overwrites_buffer_and_mirror() {
  let mut s = TextInputState::with_lower_mirror();
  s.push_char('a');
  s.set("HELLO".to_string());
  assert_eq!(s.buffer(), "HELLO");
  assert_eq!(s.lower(), "hello");
}

#[test]
fn take_returns_buffer_and_clears() {
  let mut s = TextInputState::new();
  s.push_char('h');
  s.push_char('i');
  let taken = s.take();
  assert_eq!(taken, "hi");
  assert!(s.is_empty());
}

#[test]
fn focus_and_blur() {
  let mut s = TextInputState::new();
  assert!(!s.is_focused());
  s.focus();
  assert!(s.is_focused());
  s.blur();
  assert!(!s.is_focused());
}

#[test]
fn lower_mirror_kept_in_sync() {
  let mut s = TextInputState::with_lower_mirror();
  s.push_char('H');
  assert_eq!(s.lower(), "h");
  s.push_char('I');
  assert_eq!(s.lower(), "hi");
  s.pop_char();
  assert_eq!(s.lower(), "h");
}

#[test]
fn no_lower_mirror_means_empty_string() {
  let mut s = TextInputState::new();
  s.push_char('H');
  s.push_char('I');
  assert_eq!(s.lower(), "");
}

#[test]
fn lower_mirror_handles_multibyte() {
  let mut s = TextInputState::with_lower_mirror();
  s.push_char('Ä');
  assert_eq!(s.lower(), "ä");
}
