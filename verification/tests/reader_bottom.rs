use trench::state::simple::ReaderBottomState;


#[test]
fn reader_bottom_default_matches_pre_grouping_initialisers() {
  // Load-bearing: pre-grouping the five flat App fields initialised
  // to (false, false, false, 0, ScrollState::new()).  Deriving Default
  // gives byte-equivalent behaviour — the migration's correctness
  // criterion for ADR-009.
  let s = ReaderBottomState::default();
  assert!(!s.open);
  assert!(!s.focused);
  assert!(!s.details);
  assert_eq!(s.feed_popup_selected, 0);
  assert_eq!(s.scroll.offset(), 0);
  assert_eq!(s.scroll.max(), 0);
}

#[test]
fn fields_are_independently_mutable() {
  // Witness: the cluster is just a grouping, not a state machine.
  // Each field is settable independently — no surprise coupling
  // (e.g., toggling `open` should not zero `feed_popup_selected`).
  let mut s = ReaderBottomState::default();
  s.open = true;
  s.feed_popup_selected = 42;
  assert!(s.open);
  assert_eq!(s.feed_popup_selected, 42);

  s.open = false;
  assert!(!s.open);
  assert_eq!(s.feed_popup_selected, 42, "selection survives close");
}
