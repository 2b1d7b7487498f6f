use trench::feed::FeedModel;
use trench::fixtures::variant;
use trench::library_select::{VisualKey, VisualOutcome};
use trench::models::{FeedItem, WorkflowState};
use trench::state::discovery::DiscoveryModel;
use trench::workspace::Workspace;

fn corpus(n: usize) -> Vec<FeedItem> {
  (0..n).map(variant).collect()
}

fn url(i: usize) -> String {
  format!("https://arxiv.org/abs/2605.{i:05}")
}

fn selected(m: &FeedModel, items: &[FeedItem]) -> Vec<String> {
  items
    .iter()
    .filter(|it| m.library_selected_urls.contains(&it.url))
    .map(|it| it.url.clone())
    .collect()
}

#[test]
fn recompute_selects_anchor_to_cursor_span() {
  let items = corpus(6);
  let visible = vec![5, 4, 3, 2, 1, 0];
  let mut m = FeedModel::default();
  m.library_list.set_count(6);
  m.library_list.set_selected(1);
  m.enter_library_visual_mode();
  m.library_list.set_selected(3);
  m.library_recompute_selection(&visible, &items);
  // Rows 1..=3 show items 4, 3, 2.
  assert_eq!(selected(&m, &items), vec![url(2), url(3), url(4)]);
  m.exit_library_visual_mode();
  m.library_recompute_selection(&visible, &items);
  assert!(selected(&m, &items).is_empty());
}

#[test]
fn extend_matches_recompute_in_both_directions() {
  let items = corpus(8);
  let visible: Vec<usize> = (0..8).collect();
  let mut m = FeedModel::default();
  m.library_list.set_count(8);
  m.library_list.set_selected(4);
  m.enter_library_visual_mode();
  m.library_recompute_selection(&visible, &items);
  assert_eq!(selected(&m, &items), vec![url(4)]);
  for &c in &[6usize, 7, 2, 0, 5, 4, 3] {
    m.library_extend_selection(c, &visible, &items);
    let incremental = selected(&m, &items);
    let mut fresh = FeedModel::default();
    fresh.library_list.set_count(8);
    fresh.library_list.set_selected(4);
    fresh.enter_library_visual_mode();
    fresh.library_list.set_selected(c);
    fresh.library_recompute_selection(&visible, &items);
    assert_eq!(incremental, selected(&fresh, &items), "cursor {c}");
    assert_eq!(m.library_list.selected(), c);
  }
}

#[test]
fn extend_outside_visual_mode_only_moves_cursor() {
  let items = corpus(3);
  let visible = vec![0, 1, 2];
  let mut m = FeedModel::default();
  m.library_extend_selection(2, &visible, &items);
  assert_eq!(m.library_list.selected(), 2);
  assert!(m.library_selected_urls.is_empty());
  // The cursor is clamped into the visible rows.
  m.library_extend_selection(9, &visible, &items);
  assert_eq!(m.library_list.selected(), 2);
}

#[test]
fn apply_workflow_to_selection_counts_found_urls() {
  let mut ws = Workspace::default();
  ws.items_store.push(variant(0));
  ws.items_store.push(variant(1));
  let mut d = DiscoveryModel::default();
  d.items.push(variant(2));
  let mut m = FeedModel::default();
  assert_eq!(m.apply_workflow_to_selection(&mut ws, &mut d, WorkflowState::Archived), 0);
  m.library_selected_urls.insert(url(1));
  m.library_selected_urls.insert(url(2));
  m.library_selected_urls.insert("https://nowhere".to_string());
  let n = m.apply_workflow_to_selection(&mut ws, &mut d, WorkflowState::Archived);
  assert_eq!(n, 2);
  assert_eq!(ws.items_store.get(1).unwrap().workflow_state, WorkflowState::Archived);
  assert_eq!(ws.items_store.get(0).unwrap().workflow_state, variant(0).workflow_state);
  assert_eq!(d.items[0].workflow_state, WorkflowState::Archived);
  assert_eq!(ws.persisted_states.get(&url(2)), Some(&WorkflowState::Archived));
  assert!(ws.persisted_states.get("https://nowhere").is_none());
}

#[test]
fn visual_mode_keys() {
  let mut ws = Workspace::default();
  for i in 0..5 {
    ws.items_store.push(variant(i));
  }
  let mut d = DiscoveryModel::default();
  let visible: Vec<usize> = (0..5).collect();
  let mut m = FeedModel::default();
  m.library_list.set_count(5);
  m.library_list.set_selected(1);
  m.enter_library_visual_mode();
  m.library_recompute_selection(&visible, ws.items_store.items());
  assert!(matches!(m.library_visual_key(VisualKey::Down, &visible, &mut ws, &mut d), VisualOutcome::Handled));
  assert!(matches!(m.library_visual_key(VisualKey::Down, &visible, &mut ws, &mut d), VisualOutcome::Handled));
  assert_eq!(m.library_list.selected(), 3);
  assert_eq!(m.library_selected_urls.len(), 3);
  m.library_visual_key(VisualKey::Up, &visible, &mut ws, &mut d);
  assert_eq!(m.library_selected_urls.len(), 2);
  match m.library_visual_key(VisualKey::Char('t'), &visible, &mut ws, &mut d) {
    VisualOutcome::TagTargets(urls) => assert_eq!(urls.len(), 2),
    _ => panic!("expected tag targets"),
  }
  assert!(matches!(m.library_visual_key(VisualKey::Char('f'), &visible, &mut ws, &mut d), VisualOutcome::Handled));
  assert!(m.library_visual_mode);
  match m.library_visual_key(VisualKey::Char('x'), &visible, &mut ws, &mut d) {
    VisualOutcome::Applied(st, n) => {
      assert_eq!(st, WorkflowState::Archived);
      assert_eq!(n, 2);
    }
    _ => panic!("expected applied"),
  }
  assert!(!m.library_visual_mode);
  assert!(m.library_selected_urls.is_empty());
  assert_eq!(ws.items_store.get(1).unwrap().workflow_state, WorkflowState::Archived);
  assert_eq!(ws.items_store.get(2).unwrap().workflow_state, WorkflowState::Archived);
  m.enter_library_visual_mode();
  m.library_visual_key(VisualKey::Esc, &visible, &mut ws, &mut d);
  assert!(!m.library_visual_mode);
}
