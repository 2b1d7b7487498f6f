use trench::feed::FeedModel;
use trench::fixtures::variant;
use trench::models::{ContentType, FeedItem, SignalLevel, SourcePlatform};
use trench::source_names::filter_source_names;
use trench::state::discovery::DiscoveryModel;
use trench::state::feed::{filter_total_items, FeedTab, FilterState};

fn sourced(name: &str, platform: SourcePlatform) -> FeedItem {
  let mut it = variant(0);
  it.source_name = name.to_string();
  it.source_platform = platform;
  it
}

#[test]
fn source_names_are_sorted_unique_with_seeds() {
  let items = vec![
    sourced("rss-feed", SourcePlatform::Rss),
    sourced("", SourcePlatform::HuggingFace),
    sourced("Blog", SourcePlatform::Blog),
    sourced("rss-feed", SourcePlatform::Rss),
    sourced("", SourcePlatform::ArXiv),
  ];
  let names = filter_source_names(&items);
  assert_eq!(names, vec!["Blog", "arxiv", "hf", "rss-feed"]);
}

#[test]
fn source_names_of_empty_corpus_are_the_seeds() {
  let names = filter_source_names(&[]);
  assert_eq!(names, vec!["arxiv".to_string(), "hf".to_string()]);
}

#[test]
fn filter_total_counts_every_section() {
  assert_eq!(filter_total_items(2, 0), 9);
  assert_eq!(filter_total_items(4, 3), 14);
}

fn names(v: &[&str]) -> Vec<String> {
  v.iter().map(|s| s.to_string()).collect()
}

#[test]
fn toggle_rows_walk_every_section() {
  let src = names(&["arxiv", "hf"]);
  let tags = names(&["ml"]);
  let mut f = FilterState::new();
  f.toggle_at_row(1, &src, &tags);
  assert!(f.sources.contains("hf"));
  f.toggle_at_row(3, &src, &tags);
  assert!(f.signals.contains(SignalLevel::Secondary));
  f.toggle_at_row(7, &src, &tags);
  assert!(f.content_types.contains(ContentType::Digest));
  f.toggle_at_row(8, &src, &tags);
  assert!(f.tags.contains("ml"));
  assert_eq!(f.active_count(), 4);
  // Same row again flips it back.
  f.toggle_at_row(1, &src, &tags);
  assert!(!f.sources.contains("hf"));
  // Last row clears everything.
  f.toggle_at_row(9, &src, &tags);
  assert!(f.is_empty());
}

#[test]
fn feed_toggle_uses_filter_cursor_and_cursor_moves_clamp() {
  let src = names(&["arxiv"]);
  let mut m = FeedModel::default();
  m.filter_cursor_up();
  assert_eq!(m.filter_cursor, 0);
  m.toggle_filter_at_cursor(&src, &[]);
  assert!(m.active_filters.sources.contains("arxiv"));
  let total = filter_total_items(1, 0);
  for _ in 0..20 {
    m.filter_cursor_down(total);
  }
  assert_eq!(m.filter_cursor, total - 1);
  m.toggle_filter_at_cursor(&src, &[]);
  assert!(m.active_filters.is_empty());
  m.toggle_filter_at_cursor(&src, &[]);
  m.clear_filters();
  assert!(m.active_filters.is_empty());
}

#[test]
fn cursor_navigation_on_active_tab() {
  let mut m = FeedModel::default();
  let mut d = DiscoveryModel::default();
  m.move_down(&mut d, 0);
  assert_eq!(m.active_selected_index(&d), 0);
  m.move_down(&mut d, 3);
  m.move_down(&mut d, 3);
  assert_eq!(m.active_selected_index(&d), 2);
  m.move_down(&mut d, 3);
  assert_eq!(m.active_selected_index(&d), 2);
  m.move_up(&mut d, 3);
  assert_eq!(m.active_selected_index(&d), 1);
  m.go_to_top(&mut d, 3);
  assert_eq!(m.active_selected_index(&d), 0);
  m.go_to_bottom(&mut d, 3);
  assert_eq!(m.inbox_list.selected(), 2);
  // Discoveries keeps its own cursor.
  m.feed_tab = FeedTab::Discoveries;
  assert_eq!(m.active_selected_index(&d), 0);
  m.set_active_selected_index(&mut d, 5, 4);
  assert_eq!(d.list.selected(), 4);
  assert_eq!(m.inbox_list.selected(), 2);
  // A stale count is replaced before clamping.
  m.set_active_selected_index(&mut d, 2, 9);
  assert_eq!(d.list.selected(), 1);
  m.set_active_list_offset(&mut d, 1);
  assert_eq!(d.list.offset(), 1);
  m.reset_active_feed_position(&mut d, 2);
  assert_eq!((d.list.selected(), d.list.offset()), (0, 0));
}

#[test]
fn discovery_indices_rebuild_and_reset() {
  let mut d = DiscoveryModel::default();
  d.items.push(variant(0));
  d.items.push(variant(1));
  d.rebuild_discovery_indices();
  assert_eq!(d.url_index.get("https://arxiv.org/abs/2605.00001"), Some(&1));
  assert_eq!(d.arxiv_id_index.get("2605.00000"), Some(&0));
  d.reset_discovery_items();
  assert!(d.items.is_empty());
  assert!(d.url_index.is_empty());
  assert!(d.arxiv_id_index.is_empty());
}
