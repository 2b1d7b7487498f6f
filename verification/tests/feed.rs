use trench::feed::{apply_sort_mode, items_for_tab, FeedModel, FeedSortMode, SubjectScope, Viewport};
use trench::state::discovery::DiscoveryModel;
use trench::state::feed::FeedTab;
use trench::messages::Effect;
use trench::workspace::Workspace;


#[test]
fn default_feed_tab_is_inbox() {
  let model = FeedModel::default();
  assert!(model.feed_tab == FeedTab::Inbox);
}

#[test]
fn default_search_is_empty_and_inactive() {
  let model = FeedModel::default();
  assert!(model.search_query.is_empty());
  assert!(model.search_query_lower.is_empty());
  assert!(!model.search_active);
}

#[test]
fn default_filter_panel_is_unfocused_at_origin() {
  let model = FeedModel::default();
  assert!(!model.filter_focus);
  assert_eq!(model.filter_cursor, 0);
}

#[test]
fn default_library_visual_mode_is_off() {
  let model = FeedModel::default();
  assert!(!model.library_visual_mode);
  assert_eq!(model.library_visual_anchor, 0);
  assert!(model.library_selected_urls.is_empty());
}

#[test]
fn cycle_tab_walks_forward_and_wraps() {
  // Cycle order: Inbox → Browse → Library → Discoveries → History → Inbox.
  let mut m = FeedModel::default();
  m.cycle_tab();
  assert!(m.feed_tab == FeedTab::Browse);
  m.cycle_tab();
  assert!(m.feed_tab == FeedTab::Library);
  m.cycle_tab();
  assert!(m.feed_tab == FeedTab::Discoveries);
  m.cycle_tab();
  assert!(m.feed_tab == FeedTab::History);
  m.cycle_tab();
  assert!(m.feed_tab == FeedTab::Inbox);
}

#[test]
fn cycle_tab_back_walks_backward_and_wraps() {
  let mut m = FeedModel::default();
  m.cycle_tab_back();
  assert!(m.feed_tab == FeedTab::History);
  m.cycle_tab_back();
  assert!(m.feed_tab == FeedTab::Discoveries);
  m.cycle_tab_back();
  assert!(m.feed_tab == FeedTab::Library);
  m.cycle_tab_back();
  assert!(m.feed_tab == FeedTab::Browse);
  m.cycle_tab_back();
  assert!(m.feed_tab == FeedTab::Inbox);
}

#[test]
fn set_tab_jumps_directly() {
  let mut m = FeedModel::default();
  m.set_tab(FeedTab::Discoveries);
  assert!(m.feed_tab == FeedTab::Discoveries);
  m.set_tab(FeedTab::Inbox);
  assert!(m.feed_tab == FeedTab::Inbox);
}

#[test]
fn search_mode_toggles() {
  let mut m = FeedModel::default();
  assert!(!m.search_active);
  m.enter_search();
  assert!(m.search_active);
  m.exit_search();
  assert!(!m.search_active);
}

#[test]
fn exit_search_preserves_query_text() {
  // Exiting search mode is a focus change, not a clear.
  let mut m = FeedModel::default();
  m.search_query = "transformers".to_string();
  m.search_query_lower = "transformers".to_string();
  m.enter_search();
  m.exit_search();
  assert_eq!(m.search_query, "transformers");
  assert_eq!(m.search_query_lower, "transformers");
}

#[test]
fn filter_focus_toggles() {
  let mut m = FeedModel::default();
  assert!(!m.filter_focus);
  m.enter_filter_focus();
  assert!(m.filter_focus);
  m.exit_filter_focus();
  assert!(!m.filter_focus);
}

#[test]
fn library_visual_mode_captures_anchor_at_entry() {
  let mut m = FeedModel::default();
  m.library_list.set_count(50);
  m.library_list.set_viewport(20);
  m.library_list.set_selected(17);
  m.enter_library_visual_mode();
  assert!(m.library_visual_mode);
  assert_eq!(m.library_visual_anchor, 17);
}

#[test]
fn exit_library_visual_mode_clears_selection() {
  let mut m = FeedModel::default();
  m.library_selected_urls.insert("https://example.com/a".into());
  m.library_selected_urls.insert("https://example.com/b".into());
  m.library_visual_mode = true;
  m.exit_library_visual_mode();
  assert!(!m.library_visual_mode);
  assert!(m.library_selected_urls.is_empty());
}

// ── pre_draw ──────────────────────────────────────────────────────────

#[test]
fn pre_draw_makes_selection_visible_when_offscreen() {
  // Set up: selection at item 50, but offset forced to 0 (out of viewport).
  let mut m = FeedModel::default();
  let mut discovery = DiscoveryModel::default();
  m.inbox_list.set_count(100);
  m.inbox_list.set_viewport(20);
  m.inbox_list.set_selected(50);
  m.inbox_list.set_offset(0);
  assert_eq!(m.inbox_list.offset(), 0);

  m.pre_draw(&mut discovery, Viewport::new(80, 20), 100, 20);

  // After pre_draw the cursor must lie within the viewport.
  let offset = m.inbox_list.offset();
  assert!(offset <= 50, "offset {offset} should not exceed selected 50");
  assert!(
    offset + 20 > 50,
    "viewport [{offset}..{}) must cover 50",
    offset + 20
  );
}

#[test]
fn pre_draw_preserves_offset_when_selection_in_viewport() {
  let mut m = FeedModel::default();
  let mut discovery = DiscoveryModel::default();
  m.inbox_list.set_count(100);
  m.inbox_list.set_viewport(20);
  m.inbox_list.set_selected(5);
  m.inbox_list.set_offset(0);

  m.pre_draw(&mut discovery, Viewport::new(80, 20), 100, 20);

  // Selection 5 is well inside [0, 20) — and the 2-item buffer doesn't
  // fire because 5 is far from the bottom edge. Offset stays at 0.
  assert_eq!(m.inbox_list.offset(), 0);
}

#[test]
fn pre_draw_two_item_buffer_advances_offset_near_bottom() {
  // viewport fits 10 items; selection at row 9 (one short of bottom edge);
  // many more items follow → buffer should kick in.
  let mut m = FeedModel::default();
  let mut discovery = DiscoveryModel::default();
  m.inbox_list.set_count(50);
  m.inbox_list.set_viewport(10);
  m.inbox_list.set_offset(0);
  m.inbox_list.set_selected(9);

  m.pre_draw(&mut discovery, Viewport::new(80, 10), 50, 10);

  // Buffer fires: new_offset = 9 + 2 - 10 = 1.
  assert_eq!(m.inbox_list.offset(), 1);
}

#[test]
fn pre_draw_two_item_buffer_does_not_run_off_the_end() {
  // Selection near the very end — no more items below, buffer should
  // not advance past the end of the list.
  let mut m = FeedModel::default();
  let mut discovery = DiscoveryModel::default();
  m.inbox_list.set_count(15);
  m.inbox_list.set_viewport(10);
  m.inbox_list.set_offset(5);
  m.inbox_list.set_selected(14);

  m.pre_draw(&mut discovery, Viewport::new(80, 10), 15, 10);

  // offset 5 + items_fitting 10 == 15 == total_items, so buffer guard
  // `offset + items_fitting < total_items` blocks the advance.
  // ensure_visible in set_viewport pulls offset to 14+1-10 = 5. Stable.
  assert_eq!(m.inbox_list.offset(), 5);
}

#[test]
fn pre_draw_dispatches_by_feed_tab() {
  // Library tab should reconcile library_list, not inbox_list.
  let mut m = FeedModel::default();
  let mut discovery = DiscoveryModel::default();
  m.feed_tab = FeedTab::Library;
  m.library_list.set_count(100);
  m.library_list.set_viewport(10);
  m.library_list.set_selected(50);
  m.library_list.set_offset(0);

  m.pre_draw(&mut discovery, Viewport::new(80, 10), 100, 10);

  // Library list was reconciled; inbox_list is untouched.
  assert!(m.library_list.offset() > 0);
  assert_eq!(m.inbox_list.offset(), 0);
}

// ── pre_draw_narrow_feed ───────────────────────────────────────────────

#[test]
fn pre_draw_narrow_feed_reverse_walks_for_tall_rows() {
  // Viewport 10 rows; first 4 items are 3 rows tall, rest are 1 row.
  // Uniform-height ensure_visible would think 4 items fit (= 10 / ~2);
  // real fit from offset 0 is only 3 (3+3+3=9, 4th wouldn't fit).
  // Selecting item 5 (row 4-5 of one-row band) must reverse-walk to
  // land offset where the cumulative height up to selected fits.
  let mut m = FeedModel::default();
  let mut discovery = DiscoveryModel::default();
  m.inbox_list.set_count(20);
  m.inbox_list.set_viewport(10);
  m.inbox_list.set_offset(0);
  m.inbox_list.set_selected(5);

  // Heights: items 0..=3 are 3 rows; items 4..=5 are 1 row each.
  let heights: Vec<usize> =
    (0..=5).map(|i| if i < 4 { 3 } else { 1 }).collect();
  m.pre_draw_narrow_feed(&mut discovery, Viewport::new(40, 10), 20, &heights);

  // Reverse walk from item 5: 1 + 1 + 3 + 3 + 3 = 11 > 10, so the walk
  // stops; offset lands at item 2 (1+1+3+3 = 8 rows, ≤ 10).
  assert_eq!(m.inbox_list.offset(), 2);
}

#[test]
fn pre_draw_narrow_feed_no_change_when_selection_already_fits() {
  // Selection already on screen at a sensible offset — no adjustment.
  let mut m = FeedModel::default();
  let mut discovery = DiscoveryModel::default();
  m.inbox_list.set_count(20);
  m.inbox_list.set_viewport(10);
  m.inbox_list.set_offset(0);
  m.inbox_list.set_selected(2);

  // Three items, each 2 rows tall — fits in a 10-row window.
  let heights = vec![2usize, 2, 2];
  m.pre_draw_narrow_feed(&mut discovery, Viewport::new(40, 10), 20, &heights);

  assert_eq!(m.inbox_list.offset(), 0);
  assert_eq!(m.inbox_list.selected(), 2);
}

#[test]
fn pre_draw_narrow_feed_handles_empty_list() {
  let mut m = FeedModel::default();
  let mut discovery = DiscoveryModel::default();
  m.pre_draw_narrow_feed(&mut discovery, Viewport::new(40, 10), 0, &[]);
  assert_eq!(m.inbox_list.offset(), 0);
  assert_eq!(m.inbox_list.selected(), 0);
}

// ── W3 hybrid: workflow-state gestures ────────────────────────────────

fn mock_item(
  url: &str,
  state: trench::models::WorkflowState,
) -> trench::models::FeedItem {
  trench::models::FeedItem {
    id: url.to_string(),
    title: "T".to_string(),
    source_platform: trench::models::SourcePlatform::ArXiv,
    content_type: trench::models::ContentType::Paper,
    domain_tags: Vec::new(),
    signal: trench::models::SignalLevel::Primary,
    published_at: "2026-01-01".to_string(),
    authors: Vec::new(),
    summary_short: String::new(),
    workflow_state: state,
    url: url.to_string(),
    upvote_count: 0,
    github_repo: None,
    github_owner: None,
    github_repo_name: None,
    benchmark_results: Vec::new(),
    full_content: None,
    source_name: "test".to_string(),
    title_lower: "t".to_string(),
    authors_lower: Vec::new(),
  }
}

#[test]
fn set_workflow_state_for_url_mutates_workspace_and_emits_effect() {

  let mut workspace = Workspace::default();
  workspace.items_store.push(mock_item("https://a", WorkflowState::Inbox));
  workspace.items_store.push(mock_item("https://b", WorkflowState::Inbox));
  let mut model = FeedModel::default();
  let mut discovery = DiscoveryModel::default();

  let effects = model.set_workflow_state_for_url(
    &mut workspace,
    &mut discovery,
    "https://b",
    WorkflowState::DeepRead,
  );

  // Item mutated in-place.
  assert_eq!(
    workspace.items_store.get(1).unwrap().workflow_state,
    WorkflowState::DeepRead
  );
  // Persisted-state side table updated.
  assert_eq!(
    workspace.persisted_states.get("https://b"),
    Some(&WorkflowState::DeepRead),
  );
  // Exactly one Effect emitted, naming the cache-invalidation event.
  assert_eq!(effects.len(), 1);
  assert!(matches!(
    &effects[0],
    Effect::WorkflowStateChanged { url, state }
      if url == "https://b" && *state == WorkflowState::DeepRead
  ));
}

#[test]
fn set_workflow_state_for_url_falls_through_to_discovery() {

  let mut workspace = Workspace::default();
  let mut model = FeedModel::default();
  let mut discovery = DiscoveryModel::default();
  // Item only exists in discovery, not workspace.
  discovery.items.push(mock_item("https://d", WorkflowState::Inbox));

  let effects = model.set_workflow_state_for_url(
    &mut workspace,
    &mut discovery,
    "https://d",
    WorkflowState::Queued,
  );

  assert_eq!(effects.len(), 1);
  assert_eq!(discovery.items[0].workflow_state, WorkflowState::Queued);
  // Persistence is keyed by URL regardless of where the item lived.
  assert!(workspace.persisted_states.contains_key("https://d"));
}

#[test]
fn set_workflow_state_for_url_unknown_url_is_noop() {

  let mut workspace = Workspace::default();
  workspace.items_store.push(mock_item("https://a", WorkflowState::Inbox));
  let mut model = FeedModel::default();
  let mut discovery = DiscoveryModel::default();

  let effects = model.set_workflow_state_for_url(
    &mut workspace,
    &mut discovery,
    "https://ghost",
    WorkflowState::DeepRead,
  );

  // Empty Vec means no event; no mutation; no persistence write.
  assert!(effects.is_empty());
  assert_eq!(
    workspace.items_store.get(0).unwrap().workflow_state,
    WorkflowState::Inbox
  );
  assert!(workspace.persisted_states.is_empty());
}

#[test]
fn items_for_tab_dispatches_by_tab() {
  let workspace = Workspace::default();
  let mut model = FeedModel::default();
  let discovery = DiscoveryModel::default();
  // Inbox + Library read workspace.items
  model.feed_tab = FeedTab::Inbox;
  assert_eq!(items_for_tab(&workspace, &model, &discovery).len(), 0);
  model.feed_tab = FeedTab::Library;
  assert_eq!(items_for_tab(&workspace, &model, &discovery).len(), 0);
  // Discoveries reads discovery.items
  model.feed_tab = FeedTab::Discoveries;
  assert!(std::ptr::eq(
    items_for_tab(&workspace, &model, &discovery).as_ptr(),
    discovery.items.as_ptr(),
  ));
  // History returns empty slice
  model.feed_tab = FeedTab::History;
  assert!(items_for_tab(&workspace, &model, &discovery).is_empty());
}

#[test]
fn pre_draw_narrow_feed_dispatches_by_feed_tab() {
  // Library tab is active — library_list should be touched.
  let mut m = FeedModel::default();
  m.feed_tab = FeedTab::Library;
  m.library_list.set_count(50);
  m.library_list.set_viewport(8);
  m.library_list.set_offset(0);
  m.library_list.set_selected(6);

  let heights = vec![2usize; 7]; // 7 items of 2 rows each
  let mut discovery = DiscoveryModel::default();
  m.pre_draw_narrow_feed(&mut discovery, Viewport::new(40, 8), 50, &heights);

  // Reverse walk from item 6: 2+2+2+2 = 8 rows fits; one more (2) would
  // overflow, so offset lands at item 3.
  assert_eq!(m.library_list.offset(), 3);
  assert_eq!(m.inbox_list.offset(), 0);
}

// ── ADR-011 §E3: sort modes ───────────────────────────────────────────
//
// Tests target apply_sort_mode directly so we don't have to spin up
// the full visible_indices_for filter pipeline. Each test builds a
// hand-crafted item set, then verifies the post-sort order.

use trench::models::{
  ContentType, FeedItem, SignalLevel, SourcePlatform, WorkflowState,
};

fn item(url: &str, published: &str, upvotes: u32, tags: &[&str]) -> FeedItem {
  FeedItem {
    id: url.to_string(),
    title: url.to_string(),
    source_platform: SourcePlatform::ArXiv,
    content_type: ContentType::Paper,
    domain_tags: tags.iter().map(|t| t.to_string()).collect(),
    signal: SignalLevel::Primary,
    published_at: published.to_string(),
    authors: vec![],
    summary_short: String::new(),
    workflow_state: WorkflowState::Inbox,
    url: url.to_string(),
    upvote_count: upvotes,
    github_repo: None,
    github_owner: None,
    github_repo_name: None,
    benchmark_results: vec![],
    full_content: None,
    source_name: "test".to_string(),
    title_lower: String::new(),
    authors_lower: vec![],
  }
}

#[test]
fn sort_dated_is_noop_preserves_order() {
  // items_store is conventionally sorted by published_at desc;
  // apply_sort_mode(Dated) must leave the input order untouched.
  let items = vec![
    item("a", "2026-05-19", 100, &[]),
    item("b", "2026-05-18", 50, &[]),
    item("c", "2026-05-17", 200, &[]),
  ];
  let mut indices = vec![0, 1, 2];
  apply_sort_mode(&mut indices, &items, FeedSortMode::Dated, 42);
  assert_eq!(indices, vec![0, 1, 2]);
}

#[test]
fn sort_popular_orders_by_upvote_count_desc() {
  let items = vec![
    item("a", "2026-05-19", 5, &[]),
    item("b", "2026-05-18", 100, &[]),
    item("c", "2026-05-17", 50, &[]),
  ];
  let mut indices = vec![0, 1, 2];
  apply_sort_mode(&mut indices, &items, FeedSortMode::Popular, 42);
  // Expected order: b (100), c (50), a (5).
  assert_eq!(indices, vec![1, 2, 0]);
}

#[test]
fn sort_random_is_deterministic_for_same_seed() {
  let items: Vec<FeedItem> =
    (0..10).map(|i| item(&format!("u{i}"), "2026-05-19", 0, &[])).collect();
  let mut a = (0..10).collect::<Vec<usize>>();
  let mut b = (0..10).collect::<Vec<usize>>();
  apply_sort_mode(&mut a, &items, FeedSortMode::Random, 42);
  apply_sort_mode(&mut b, &items, FeedSortMode::Random, 42);
  assert_eq!(a, b, "same seed must produce same shuffle");
  // And must actually shuffle (not just return input order).
  assert_ne!(a, (0..10).collect::<Vec<usize>>(), "shuffle should reorder");
}

#[test]
fn sort_random_differs_for_different_seeds() {
  let items: Vec<FeedItem> =
    (0..20).map(|i| item(&format!("u{i}"), "2026-05-19", 0, &[])).collect();
  let mut a = (0..20).collect::<Vec<usize>>();
  let mut b = (0..20).collect::<Vec<usize>>();
  apply_sort_mode(&mut a, &items, FeedSortMode::Random, 1);
  apply_sort_mode(&mut b, &items, FeedSortMode::Random, 999_999);
  assert_ne!(a, b, "different seeds should produce different shuffles");
}

#[test]
fn sort_trending_filters_to_last_14_days_then_sorts_by_upvotes() {
  // Build with old + new items mixed. Trending mode should drop the
  // old ones entirely, then sort the rest by upvote_count desc.
  let now = chrono::Utc::now();
  let recent = now.format("%Y-%m-%d").to_string();
  let old = (now - chrono::Duration::days(60)).format("%Y-%m-%d").to_string();
  let items = vec![
    item("old-low", &old, 10, &[]),      // dropped
    item("new-low", &recent, 5, &[]),    // kept, low
    item("old-high", &old, 1000, &[]),   // dropped despite high upvotes
    item("new-high", &recent, 200, &[]), // kept, high
  ];
  let mut indices = vec![0, 1, 2, 3];
  apply_sort_mode(&mut indices, &items, FeedSortMode::Trending, 42);
  // Expected order: new-high (200), new-low (5). old-* dropped.
  assert_eq!(indices, vec![3, 1]);
}

// ── ADR-011 §E4: subject-follow predicate ────────────────────────────

#[test]
fn subject_scope_archive_matches_prefix_and_bare_id() {
  let scope = SubjectScope::Archive("cs");
  assert!(scope.matches(&item("a", "x", 0, &["cs.LG"])));
  assert!(scope.matches(&item("b", "x", 0, &["cs.AI", "stat.ML"])));
  assert!(scope.matches(&item("label", "x", 0, &["Machine Learning"])));
  assert!(!scope.matches(&item("c", "x", 0, &["math.NT"])));

  // Bare archive id (gr-qc) — items tagged with exactly the
  // archive id match too.
  let gr_qc = SubjectScope::Archive("gr-qc");
  assert!(gr_qc.matches(&item("d", "x", 0, &["gr-qc"])));
  assert!(!gr_qc.matches(&item("e", "x", 0, &["gr-qcology"]))); // not a prefix match
}

#[test]
fn subject_scope_category_matches_exact_code_only() {
  let scope = SubjectScope::Category("math.NT");
  assert!(scope.matches(&item("a", "x", 0, &["math.NT"])));
  assert!(scope.matches(&item("label", "x", 0, &["Number Theory"])));
  assert!(!scope.matches(&item("b", "x", 0, &["math.AG"])));
  assert!(!scope.matches(&item("c", "x", 0, &["math.NT.subspec"])));
}
