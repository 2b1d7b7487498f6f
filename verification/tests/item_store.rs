use trench::item_store::ItemStore;
use trench::models::FeedItem;

use trench::models::{
  ContentType, SignalLevel, SourcePlatform, WorkflowState,
};

fn item(url: &str) -> FeedItem {
  FeedItem {
    id: url.to_string(),
    title: "t".to_string(),
    source_platform: SourcePlatform::ArXiv,
    source_name: "test".to_string(),
    content_type: ContentType::Paper,
    domain_tags: Vec::new(),
    signal: SignalLevel::Primary,
    published_at: "2026-01-01".to_string(),
    authors: Vec::new(),
    summary_short: String::new(),
    workflow_state: WorkflowState::Inbox,
    url: url.to_string(),
    upvote_count: 0,
    github_repo: None,
    github_owner: None,
    github_repo_name: None,
    benchmark_results: Vec::new(),
    full_content: None,
    title_lower: "t".to_string(),
    authors_lower: Vec::new(),
  }
}

#[test]
fn default_is_empty() {
  let s = ItemStore::default();
  assert_eq!(s.len(), 0);
  assert!(s.is_empty());
  assert!(s.find_by_url("anything").is_none());
}

#[test]
fn push_updates_url_index() {
  // Core invariant: push must register the URL in url_index *and*
  // return the index that find_index_by_url will see.
  let mut s = ItemStore::default();
  let idx = s.push(item("https://example.com/a"));
  assert_eq!(idx, 0);
  assert_eq!(s.find_index_by_url("https://example.com/a"), Some(0));
  assert!(s.find_by_url("https://example.com/a").is_some());
}

#[test]
fn push_indexes_arxiv_url_in_both_maps() {
  // ArXiv URLs land in both indices; non-arXiv URLs only in url_index.
  let mut s = ItemStore::default();
  s.push(item("https://arxiv.org/abs/2401.12345"));
  assert!(s.find_by_url("https://arxiv.org/abs/2401.12345").is_some());
  assert!(s.find_by_arxiv_id("2401.12345").is_some());
}

#[test]
fn push_does_not_index_non_arxiv_urls_by_arxiv_id() {
  let mut s = ItemStore::default();
  s.push(item("https://example.com/blog"));
  assert!(s.find_by_arxiv_id("blog").is_none());
}

#[test]
fn replace_at_keeps_indices_pointing_to_same_slot() {
  // Replace must not shift other items' positions. After replacing
  // item 0, find_by_url still points at 0 and item 1 is untouched.
  let mut s = ItemStore::default();
  s.push(item("https://a"));
  s.push(item("https://b"));
  let mut replacement = item("https://a");
  replacement.title = "new title".to_string();
  s.replace_at(0, replacement);
  assert_eq!(s.len(), 2);
  assert_eq!(s.find_index_by_url("https://a"), Some(0));
  assert_eq!(s.find_index_by_url("https://b"), Some(1));
  assert_eq!(s.get(0).unwrap().title, "new title");
}

#[test]
fn replace_at_out_of_bounds_is_noop() {
  let mut s = ItemStore::default();
  s.push(item("https://a"));
  s.replace_at(99, item("https://ghost"));
  assert_eq!(s.len(), 1);
  assert!(s.find_by_url("https://ghost").is_none());
}

#[test]
fn sort_by_rebuilds_indices() {
  // After sort, url_index must point to the new positions.
  // Regression guard against "sort but forget to rebuild" — exactly
  // the bug class C9 closes.
  let mut s = ItemStore::default();
  s.push(item("https://b"));
  s.push(item("https://a"));
  s.push(item("https://c"));
  s.sort_by(|x, y| x.url.cmp(&y.url));
  assert_eq!(s.get(0).unwrap().url, "https://a");
  assert_eq!(s.get(1).unwrap().url, "https://b");
  assert_eq!(s.get(2).unwrap().url, "https://c");
  assert_eq!(s.find_index_by_url("https://a"), Some(0));
  assert_eq!(s.find_index_by_url("https://b"), Some(1));
  assert_eq!(s.find_index_by_url("https://c"), Some(2));
}

#[test]
fn rebuild_indices_is_idempotent() {
  // Calling rebuild twice in a row produces the same state.
  let mut s = ItemStore::default();
  s.push(item("https://arxiv.org/abs/2401.00001"));
  s.push(item("https://example.com/post"));
  s.rebuild_indices();
  let urls: Vec<usize> =
    ["https://arxiv.org/abs/2401.00001", "https://example.com/post"]
      .iter()
      .filter_map(|u| s.find_index_by_url(u))
      .collect();
  s.rebuild_indices();
  let urls2: Vec<usize> =
    ["https://arxiv.org/abs/2401.00001", "https://example.com/post"]
      .iter()
      .filter_map(|u| s.find_index_by_url(u))
      .collect();
  assert_eq!(urls, urls2);
  assert_eq!(urls, vec![0, 1]);
}

#[test]
fn sort_newest_first_is_stable_and_descending() {
  let mut s = ItemStore::default();
  for (url, day) in [("a", "2026-01-02"), ("b", "2026-01-05"), ("c", "2026-01-02"), ("d", "2026-01-09")] {
    let mut it = trench::fixtures::variant(0);
    it.url = url.to_string();
    it.published_at = day.to_string();
    s.push(it);
  }
  s.sort_newest_first();
  let order: Vec<&str> = s.items().iter().map(|i| i.url.as_str()).collect();
  assert_eq!(order, vec!["d", "b", "a", "c"]);
  assert_eq!(s.find_index_by_url("a"), Some(2));
}

#[test]
fn rebuild_indices_maps_every_item() {
  let mut s = ItemStore::default();
  for i in 0..9 {
    s.push(trench::fixtures::variant(i));
  }
  for (idx, item) in s.iter().enumerate() {
    assert_eq!(s.find_index_by_url(&item.url), Some(idx));
  }
  for (idx, item) in s.iter().enumerate() {
    if let Some(aid) = trench::models::arxiv_id_from_url(&item.url) {
      assert_eq!(s.find_index_by_arxiv_id(&aid), Some(idx));
    }
  }
}

#[test]
fn rebuilt_indices_point_at_the_last_carrier() {
  let mut s = ItemStore::default();
  s.push(item("https://arxiv.org/abs/2401.00001"));
  s.push(item("https://x/b"));
  s.push(item("https://huggingface.co/papers/2401.00001"));
  s.push(item("https://x/b"));
  s.rebuild_indices();
  assert_eq!(s.find_index_by_url("https://x/b"), Some(3));
  assert_eq!(s.find_index_by_arxiv_id("2401.00001"), Some(2));
  assert_eq!(s.find_index_by_url("https://x/none"), None);
}

#[test]
fn sort_by_orders_stably_by_the_comparator() {
  let mut s = ItemStore::default();
  let mut a = item("https://b");
  a.upvote_count = 1;
  let mut b = item("https://a");
  b.upvote_count = 2;
  let mut c = item("https://c");
  c.upvote_count = 1;
  s.push(a);
  s.push(b);
  s.push(c);
  s.sort_by(|x, y| x.upvote_count.cmp(&y.upvote_count));
  let urls: Vec<&str> = s.items().iter().map(|i| i.url.as_str()).collect();
  assert_eq!(urls, vec!["https://b", "https://c", "https://a"]);
  assert_eq!(s.find_index_by_url("https://a"), Some(2));
}
