use trench::collections::StrMap;
use trench::feed::{FeedModel, FeedSortMode};
use trench::models::{ContentType, FeedItem, SignalLevel, SourcePlatform, WorkflowState};
use trench::state::browse::BrowseModel;
use trench::state::discovery::DiscoveryModel;
use trench::state::feed::FeedTab;
use trench::visible::{rank_by_score, visible_indices_for};
use trench::workspace::Workspace;

fn item(url: &str, source: &str, state: WorkflowState, upvotes: u32) -> FeedItem {
  FeedItem {
    id: url.to_string(),
    title: url.to_string(),
    source_platform: SourcePlatform::Blog,
    content_type: ContentType::Paper,
    domain_tags: vec![],
    signal: SignalLevel::Primary,
    published_at: "2026-05-01".to_string(),
    authors: vec![],
    summary_short: String::new(),
    workflow_state: state,
    url: url.to_string(),
    upvote_count: upvotes,
    github_repo: None,
    github_owner: None,
    github_repo_name: None,
    benchmark_results: vec![],
    full_content: None,
    source_name: source.to_string(),
    title_lower: String::new(),
    authors_lower: vec![],
  }
}

fn workspace() -> Workspace {
  let mut ws = Workspace::default();
  ws.items_store.push(item("https://a", "blog", WorkflowState::Inbox, 1));
  ws.items_store.push(item("https://b", "blog", WorkflowState::Queued, 5));
  ws.items_store.push(item("https://c", "hidden", WorkflowState::Inbox, 3));
  ws.items_store.push(item("https://d", "blog", WorkflowState::Inbox, 9));
  ws
}

fn no_tags(n: usize) -> Vec<Vec<String>> {
  vec![Vec::new(); n]
}

#[test]
fn inbox_tab_shows_inbox_items_of_enabled_sources() {
  let ws = workspace();
  let feed = FeedModel::default();
  let mut enabled: StrMap<bool> = StrMap::new();
  enabled.insert("hidden".to_string(), false);
  let v = visible_indices_for(
    &ws,
    &feed,
    &DiscoveryModel::default(),
    &BrowseModel::new(),
    &enabled,
    &[true; 4],
    &no_tags(4),
    &[None; 4],
  );
  assert_eq!(v, vec![0, 3]);
}

#[test]
fn library_tab_follows_the_library_sub_filter_and_sort_mode() {
  let ws = workspace();
  let mut feed = FeedModel::default();
  feed.feed_tab = FeedTab::Library;
  feed.sort_mode = FeedSortMode::Popular;
  let v = visible_indices_for(
    &ws,
    &feed,
    &DiscoveryModel::default(),
    &BrowseModel::new(),
    &StrMap::new(),
    &[false, true, true, true],
    &no_tags(4),
    &[None; 4],
  );
  // Popular: most upvotes first.
  assert_eq!(v, vec![3, 1, 2]);
}

#[test]
fn tag_filter_keeps_items_carrying_an_active_tag() {
  let ws = workspace();
  let mut feed = FeedModel::default();
  feed.feed_tab = FeedTab::Browse;
  feed.active_filters.tags.insert("ml".to_string());
  let tags = vec![
    vec!["ml".to_string()],
    vec![],
    vec!["nlp".to_string(), "ml".to_string()],
    vec!["nlp".to_string()],
  ];
  let v = visible_indices_for(
    &ws,
    &feed,
    &DiscoveryModel::default(),
    &BrowseModel::new(),
    &StrMap::new(),
    &[true; 4],
    &tags,
    &[None; 4],
  );
  assert_eq!(v, vec![0, 2]);
}

#[test]
fn search_orders_by_score_and_drops_non_matches() {
  let ws = workspace();
  let mut feed = FeedModel::default();
  feed.feed_tab = FeedTab::Browse;
  feed.sort_mode = FeedSortMode::Popular;
  feed.search_query = "attention".to_string();
  let v = visible_indices_for(
    &ws,
    &feed,
    &DiscoveryModel::default(),
    &BrowseModel::new(),
    &StrMap::new(),
    &[true; 4],
    &no_tags(4),
    &[Some(5), None, Some(9), Some(5)],
  );
  // Best score first; the sort mode is bypassed; equal scores keep order.
  assert_eq!(v, vec![2, 0, 3]);
}

#[test]
fn rank_by_score_is_stable_descending() {
  assert_eq!(rank_by_score(vec![(4, 1), (7, 3), (1, 3), (9, -2), (2, 1)]), vec![7, 1, 4, 2, 9]);
  assert!(rank_by_score(Vec::new()).is_empty());
}
