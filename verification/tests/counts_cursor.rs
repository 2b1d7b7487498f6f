use trench::feed::{visible_get, visible_window, FeedModel};
use trench::fixtures::variant;
use trench::messages::Effect;
use trench::models::{FeedItem, SourcePlatform, WorkflowState};
use trench::state::discovery::DiscoveryModel;
use trench::state::feed::{compute_item_counts, item_counts, FeedTab};
use trench::workspace::Workspace;

fn dated(url: &str, state: WorkflowState, platform: SourcePlatform, day: &str) -> FeedItem {
  let mut it = variant(0);
  it.url = url.to_string();
  it.title = format!("title {url}");
  it.workflow_state = state;
  it.source_platform = platform;
  it.published_at = day.to_string();
  it
}

fn fixture_store(n: usize) -> Workspace {
  let mut ws = Workspace::default();
  for i in 0..n {
    ws.items_store.push(variant(i));
  }
  ws
}

#[test]
fn item_counts_breaks_down_workflow_states() {
  let ws = fixture_store(12);
  let counts = item_counts(ws.items_store.items());
  assert_eq!(counts.total, ws.items_store.len());
  assert_eq!(
    counts.inbox + counts.queued + counts.deep_read + counts.archived,
    counts.total
  );
  assert!(counts.inbox > 0 && counts.queued > 0);
  assert!(counts.deep_read > 0 && counts.archived > 0);
}

#[test]
fn item_counts_queue_preview_caps_at_two() {
  let ws = fixture_store(12);
  let counts = item_counts(ws.items_store.items());
  assert!(counts.queued >= 2, "fixture must have at least 2 queued items");
  assert_eq!(counts.queue_preview.len(), 2);
}

#[test]
fn compute_item_counts_exact_buckets() {
  let items = vec![
    dated("a", WorkflowState::Inbox, SourcePlatform::ArXiv, "2026-05-17"),
    dated("b", WorkflowState::Queued, SourcePlatform::HuggingFace, "2026-05-16"),
    dated("c", WorkflowState::Queued, SourcePlatform::Blog, "2026-05-17"),
    dated("d", WorkflowState::Queued, SourcePlatform::ArXiv, "2026-05-01"),
    dated("e", WorkflowState::Archived, SourcePlatform::Rss, "2026-05-15"),
  ];
  let c = compute_item_counts(&items, "2026-05-17", "2026-05-16");
  assert_eq!(c.total, 5);
  assert_eq!((c.inbox, c.queued, c.deep_read, c.archived), (1, 3, 0, 1));
  assert_eq!(c.recent_total, 3);
  assert_eq!(c.recent_today, 2);
  assert_eq!((c.recent_hf, c.recent_arxiv, c.recent_other), (1, 1, 1));
  assert_eq!(c.queue_preview, vec!["title b".to_string(), "title c".to_string()]);
}

#[test]
fn compute_item_counts_empty_corpus() {
  let c = compute_item_counts(&[], "2026-05-17", "2026-05-16");
  assert_eq!(c.total, 0);
  assert!(c.queue_preview.is_empty());
}

fn two_item_workspace() -> Workspace {
  let mut ws = Workspace::default();
  ws.items_store.push(dated("https://a", WorkflowState::Inbox, SourcePlatform::ArXiv, "x"));
  ws.items_store.push(dated("https://b", WorkflowState::Inbox, SourcePlatform::ArXiv, "x"));
  ws
}

#[test]
fn selected_url_follows_visible_order() {
  let ws = two_item_workspace();
  let mut model = FeedModel::default();
  let discovery = DiscoveryModel::default();
  model.inbox_list.set_count(2);
  model.inbox_list.set_selected(0);
  // The visible list shows item 1 first.
  assert_eq!(model.selected_url(&[1, 0], &ws, &discovery), Some("https://b".to_string()));
  model.inbox_list.set_selected(1);
  assert_eq!(model.selected_url(&[1, 0], &ws, &discovery), Some("https://a".to_string()));
  // Cursor past the visible rows.
  assert_eq!(model.selected_url(&[1], &ws, &discovery), None);
  // Visible row names no item.
  assert_eq!(model.selected_url(&[0, 7], &ws, &discovery), None);
}

#[test]
fn selected_url_on_history_tab_is_none() {
  let ws = two_item_workspace();
  let mut model = FeedModel::default();
  model.feed_tab = FeedTab::History;
  let discovery = DiscoveryModel::default();
  assert_eq!(model.selected_url(&[0], &ws, &discovery), None);
}

#[test]
fn set_workflow_state_at_cursor_targets_cursor_item() {
  let mut ws = two_item_workspace();
  let mut model = FeedModel::default();
  let mut discovery = DiscoveryModel::default();
  model.inbox_list.set_count(2);
  model.inbox_list.set_selected(0);
  let effects =
    model.set_workflow_state_at_cursor(&[1, 0], &mut ws, &mut discovery, WorkflowState::Queued);
  assert_eq!(ws.items_store.get(1).unwrap().workflow_state, WorkflowState::Queued);
  assert_eq!(ws.items_store.get(0).unwrap().workflow_state, WorkflowState::Inbox);
  assert_eq!(effects.len(), 1);
  assert!(matches!(
    &effects[0],
    Effect::WorkflowStateChanged { url, state }
      if url == "https://b" && *state == WorkflowState::Queued
  ));
}

#[test]
fn set_workflow_state_at_cursor_noop_on_empty_visible() {
  let mut ws = two_item_workspace();
  let mut model = FeedModel::default();
  let mut discovery = DiscoveryModel::default();
  let effects =
    model.set_workflow_state_at_cursor(&[], &mut ws, &mut discovery, WorkflowState::Archived);
  assert!(effects.is_empty());
  assert_eq!(ws.items_store.get(0).unwrap().workflow_state, WorkflowState::Inbox);
  assert!(ws.persisted_states.get("https://a").is_none());
}

#[test]
fn visible_rows_and_selected_item() {
  let ws = two_item_workspace();
  let mut model = FeedModel::default();
  let discovery = DiscoveryModel::default();
  let items = ws.items_store.items();
  assert_eq!(visible_get(&[1, 0], items, 0).unwrap().url, "https://b");
  assert!(visible_get(&[1, 0], items, 2).is_none());
  assert!(visible_get(&[5], items, 0).is_none());
  let w = visible_window(&[1, 0], items, 0, 10);
  assert_eq!(w.len(), 2);
  assert_eq!(w[1].url, "https://a");
  assert!(visible_window(&[1, 0], items, 3, 9).is_empty());
  model.inbox_list.set_count(2);
  model.inbox_list.set_selected(1);
  assert_eq!(model.selected_item(&[1, 0], &ws, &discovery).unwrap().url, "https://a");
  assert!(model.selected_item(&[1], &ws, &discovery).is_none());
}
