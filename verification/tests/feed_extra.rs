use trench::feed::{
  apply_sort_mode_at, subject_follow_scope, taxonomy_archive_id_for_tag,
  taxonomy_category_code_for_tag, workspace_feed_tab, FeedModel, FeedSortMode, SubjectScope, Viewport,
};
use trench::feed_order::{popular, shuffled, trending_since};
use trench::models::{ContentType, FeedItem, SignalLevel, SourcePlatform, WorkflowState};
use trench::state::browse::{BrowseModel, RailNode};
use trench::state::discovery::DiscoveryModel;
use trench::state::feed::{FeedTab, FilterState};

fn item(url: &str, published: &str, upvotes: u32) -> FeedItem {
  FeedItem {
    id: url.to_string(),
    title: url.to_string(),
    source_platform: SourcePlatform::ArXiv,
    content_type: ContentType::Paper,
    domain_tags: vec![],
    signal: SignalLevel::Primary,
    published_at: published.to_string(),
    authors: vec![],
    summary_short: String::new(),
    workflow_state: WorkflowState::Inbox,
    url: url.to_string(),
    upvote_count: upvotes,
    github_repo: None,
    github_owner: None,
    github_repo_name: None,
    benchmark_results: vec![],
    full_content: None,
    source_name: String::new(),
    title_lower: String::new(),
    authors_lower: vec![],
  }
}

#[test]
fn workflow_states_map_to_tabs() {
  assert!(workspace_feed_tab(WorkflowState::Inbox) == FeedTab::Inbox);
  assert!(workspace_feed_tab(WorkflowState::Queued) == FeedTab::Library);
  assert!(workspace_feed_tab(WorkflowState::DeepRead) == FeedTab::Library);
  assert!(workspace_feed_tab(WorkflowState::Archived) == FeedTab::Library);
}

#[test]
fn sort_mode_labels() {
  assert_eq!(FeedSortMode::Dated.label(), "Dated");
  assert_eq!(FeedSortMode::Random.label(), "Random");
  assert_eq!(FeedSortMode::Popular.label(), "Popular");
  assert_eq!(FeedSortMode::Trending.label(), "Trending");
}

#[test]
fn tab_cycle_round_trips_from_every_tab() {
  for tab in [FeedTab::Inbox, FeedTab::Browse, FeedTab::Library, FeedTab::Discoveries, FeedTab::History] {
    let mut m = FeedModel::default();
    m.set_tab(tab);
    m.cycle_tab();
    m.cycle_tab_back();
    assert!(m.feed_tab == tab);
    for _ in 0..5 {
      m.cycle_tab();
    }
    assert!(m.feed_tab == tab);
  }
}

#[test]
fn pre_draw_keeps_cursor_on_screen_for_every_cursor() {
  for sel in 0..40 {
    let mut m = FeedModel::default();
    let mut d = DiscoveryModel::default();
    m.inbox_list.set_count(40);
    m.inbox_list.set_viewport(7);
    m.inbox_list.set_selected(sel);
    m.inbox_list.set_offset(0);
    m.pre_draw(&mut d, Viewport::new(80, 7), 40, 7);
    let off = m.inbox_list.offset();
    assert!(off <= sel && sel < off + 7, "sel {sel} off {off}");
    assert_eq!(m.inbox_list.selected(), sel);
  }
}

#[test]
fn active_list_follows_the_tab() {
  let mut m = FeedModel::default();
  let mut d = DiscoveryModel::default();
  d.list.set_count(9);
  d.list.set_selected(4);
  m.set_tab(FeedTab::Discoveries);
  assert_eq!(m.active_list(&d).selected(), 4);
  m.set_tab(FeedTab::Browse);
  assert_eq!(m.active_list(&d).selected(), 0);
}

#[test]
fn empty_filter_matches_everything() {
  let f = FilterState::new();
  assert!(f.is_empty());
  assert_eq!(f.active_count(), 0);
  assert!(f.matches(&item("u", "2026-01-01", 0)));
}

#[test]
fn filter_uses_platform_label_when_source_name_is_blank() {
  let mut f = FilterState::new();
  f.sources.insert("arxiv".to_string());
  f.signals.insert(SignalLevel::Primary);
  assert!(!f.is_empty());
  assert_eq!(f.active_count(), 2);
  assert!(f.matches(&item("u", "2026-01-01", 0)));
  let mut named = item("v", "2026-01-01", 0);
  named.source_name = "blog".to_string();
  assert!(!f.matches(&named));
  f.workflow_states.insert(WorkflowState::Archived);
  assert!(!f.matches(&item("u", "2026-01-01", 0)));
}

#[test]
fn taxonomy_lookups_by_code_and_name() {
  assert_eq!(taxonomy_category_code_for_tag("cs.LG"), Some("cs.LG"));
  assert_eq!(taxonomy_category_code_for_tag("machine learning"), Some("cs.LG"));
  assert_eq!(taxonomy_category_code_for_tag("no such thing"), None);
  assert_eq!(taxonomy_archive_id_for_tag("GR-QC"), Some("gr-qc"));
  assert_eq!(taxonomy_archive_id_for_tag("Computing Research Repository"), Some("cs"));
  assert_eq!(taxonomy_archive_id_for_tag("cs.LG"), None);
}

#[test]
fn subject_scope_follows_drill_point() {
  let mut b = BrowseModel::new();
  assert!(matches!(subject_follow_scope(&b), SubjectScope::Archive("")));
  b.drill_into(RailNode::Group("cs"));
  assert!(matches!(subject_follow_scope(&b), SubjectScope::Archive("cs")));
  b.drill_into(RailNode::Archive("cs", "cs"));
  assert!(matches!(subject_follow_scope(&b), SubjectScope::Category("cs.AI")));
}

#[test]
fn popular_is_stable_and_sorted() {
  let items = vec![
    item("a", "2026-05-01", 5),
    item("b", "2026-05-01", 9),
    item("c", "2026-05-01", 5),
    item("d", "2026-05-01", 9),
  ];
  let mut idx = vec![0usize, 1, 2, 3];
  popular(&mut idx, &items);
  assert_eq!(idx, vec![1, 3, 0, 2]);
}

#[test]
fn shuffle_is_a_permutation() {
  let mut idx: Vec<usize> = (0..25).collect();
  shuffled(&mut idx, 7);
  let mut sorted = idx.clone();
  sorted.sort();
  assert_eq!(sorted, (0..25).collect::<Vec<usize>>());
  let mut again: Vec<usize> = (0..25).collect();
  shuffled(&mut again, 7);
  assert_eq!(idx, again);
}

#[test]
fn trending_keeps_items_since_cutoff() {
  let items = vec![
    item("old", "2026-04-30", 100),
    item("new", "2026-05-02", 3),
    item("edge", "2026-05-01", 7),
    item("time", "2026-05-01T10:00:00Z", 1),
  ];
  let mut idx = vec![0usize, 1, 2, 3];
  trending_since(&mut idx, &items, "2026-05-01");
  assert_eq!(idx, vec![2, 1, 3]);
  let mut idx2 = vec![0usize, 1, 2, 3];
  apply_sort_mode_at(&mut idx2, &items, FeedSortMode::Trending, 0, "2026-05-01");
  assert_eq!(idx2, vec![2, 1, 3]);
  let mut idx3 = vec![3usize, 0];
  apply_sort_mode_at(&mut idx3, &items, FeedSortMode::Dated, 0, "");
  assert_eq!(idx3, vec![3, 0]);
}
