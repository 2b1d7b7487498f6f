use trench::state::simple::ViewFlags;


#[test]
fn view_flags_default_matches_pre_grouping_initialisers() {
  // Load-bearing: pre-grouping the three flat App fields initialised
  // to false.  Deriving Default gives byte-equivalent behaviour.
  let f = ViewFlags::default();
  assert!(!f.tab_window_prompt_active);
  assert!(!f.abstract_popup_active);
  assert!(!f.narrow_feed_details_open);
}

#[test]
fn flags_are_independent() {
  // Witness: each popup opens and closes without touching its
  // siblings — the cluster is just a grouping.  Bug class to avoid:
  // "opening the abstract popup accidentally clears tab_window_prompt."
  let mut f = ViewFlags::default();
  f.tab_window_prompt_active = true;
  f.abstract_popup_active = true;
  f.narrow_feed_details_open = true;

  f.tab_window_prompt_active = false;
  assert!(!f.tab_window_prompt_active);
  assert!(f.abstract_popup_active);
  assert!(f.narrow_feed_details_open);

  f.abstract_popup_active = false;
  assert!(f.narrow_feed_details_open);
}
