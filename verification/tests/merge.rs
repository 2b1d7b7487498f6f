use trench::collections::StrMap;
use trench::merge::{
  merge_discovery_items, merge_enriched_item, merge_fetched_item, EnrichOutcome, ItemMergeOutcome,
};
use trench::state::discovery::DiscoveryModel;
use trench::messages::FetchMessage;
use trench::models::{ContentType, FeedItem, SignalLevel, SourcePlatform, WorkflowState};
use trench::feed::FeedModel;
use trench::messages::Effect;
use trench::refresh::{apply_fetch_message, finish_fetch_batch, settle_fetch_batch, FetchProgress, MergeSummary};
use trench::workspace::Workspace;

/// Minimal FeedItem for merge tests.
fn make_item(url: &str, platform: SourcePlatform) -> FeedItem {
  FeedItem {
    id: url.to_string(),
    title: format!("Test paper for {url}"),
    source_platform: platform,
    content_type: ContentType::Paper,
    domain_tags: vec![],
    signal: SignalLevel::Primary,
    published_at: "2026-05-19".to_string(),
    authors: vec!["Test Author".to_string()],
    summary_short: String::new(),
    workflow_state: WorkflowState::Inbox,
    url: url.to_string(),
    upvote_count: 0,
    github_repo: None,
    github_owner: None,
    github_repo_name: None,
    benchmark_results: vec![],
    full_content: None,
    source_name: "test".to_string(),
    title_lower: String::new(),
    authors_lower: vec![],
  }
}

#[test]
fn merge_new_url_pushes_and_grows_store() {
  let mut ws = Workspace::default();
  let before = ws.items_store.items().len();
  let item = make_item("test://merge/new-url-pushes-and-grows-store-001", SourcePlatform::Blog);

  let outcome = merge_fetched_item(&mut ws, item);

  assert!(matches!(outcome, ItemMergeOutcome::NewPushed));
  assert_eq!(ws.items_store.items().len(), before + 1);
}

#[test]
fn merge_same_url_replaces_in_place_without_growing() {
  let mut ws = Workspace::default();
  let url = "test://merge/same-url-replaces-002";
  merge_fetched_item(&mut ws, make_item(url, SourcePlatform::Blog));
  let after_first = ws.items_store.items().len();

  let mut updated = make_item(url, SourcePlatform::Blog);
  updated.title = "Updated title".to_string();
  let outcome = merge_fetched_item(&mut ws, updated);

  assert!(matches!(outcome, ItemMergeOutcome::Updated));
  assert_eq!(ws.items_store.items().len(), after_first);
  let found = ws.items_store.find_by_url(url).expect("present");
  assert_eq!(found.title, "Updated title");
}

#[test]
fn merge_arxiv_canonical_replaces_hf_stub_for_same_arxiv_id() {
  let mut ws = Workspace::default();
  let hf_url = "https://huggingface.co/papers/9999.99003";
  merge_fetched_item(&mut ws, make_item(hf_url, SourcePlatform::HuggingFace));
  let before = ws.items_store.items().len();

  let arxiv_url = "https://arxiv.org/abs/9999.99003";
  let outcome = merge_fetched_item(&mut ws, make_item(arxiv_url, SourcePlatform::ArXiv));

  assert!(matches!(outcome, ItemMergeOutcome::Updated));
  assert_eq!(ws.items_store.items().len(), before, "arxiv-ID hit replaces in place; no growth");
}

#[test]
fn merge_hf_dup_against_existing_arxiv_drops_silently() {
  let mut ws = Workspace::default();
  let arxiv_url = "https://arxiv.org/abs/9999.99004";
  merge_fetched_item(&mut ws, make_item(arxiv_url, SourcePlatform::ArXiv));
  let before = ws.items_store.items().len();

  let hf_url = "https://huggingface.co/papers/9999.99004";
  let outcome = merge_fetched_item(&mut ws, make_item(hf_url, SourcePlatform::HuggingFace));

  assert!(matches!(outcome, ItemMergeOutcome::DroppedDuplicate));
  assert_eq!(ws.items_store.items().len(), before);
  assert!(ws.items_store.find_by_url(arxiv_url).is_some());
  assert!(ws.items_store.find_by_url(hf_url).is_none());
}

#[test]
fn merge_restores_persisted_workflow_state() {
  let mut ws = Workspace::default();
  let url = "test://merge/persisted-state-005";
  ws.persisted_states.insert(url.to_string(), WorkflowState::Queued);

  let item = make_item(url, SourcePlatform::Blog);
  assert_eq!(item.workflow_state, WorkflowState::Inbox);
  merge_fetched_item(&mut ws, item);

  let stored = ws.items_store.find_by_url(url).expect("present after merge");
  assert_eq!(
    stored.workflow_state,
    WorkflowState::Queued,
    "persisted state must override incoming workflow_state"
  );
}

#[test]
fn canonical_replacement_keeps_the_stub_workflow_state() {
  let mut ws = Workspace::default();
  let mut stub = make_item("https://huggingface.co/papers/2401.00007", SourcePlatform::HuggingFace);
  stub.workflow_state = WorkflowState::DeepRead;
  merge_fetched_item(&mut ws, stub);
  merge_fetched_item(&mut ws, make_item("https://arxiv.org/abs/2401.00007", SourcePlatform::ArXiv));
  let it = ws.items_store.get(0).unwrap();
  assert_eq!(it.url, "https://arxiv.org/abs/2401.00007");
  assert_eq!(it.workflow_state, WorkflowState::DeepRead);
  assert_eq!(ws.items_store.find_index_by_arxiv_id("2401.00007"), Some(0));
  assert!(ws.items_store.find_by_url("https://huggingface.co/papers/2401.00007").is_none());
}

#[test]
fn enrichment_fills_canonical_entry_without_overwriting() {
  let mut ws = Workspace::default();
  let mut canonical = make_item("https://arxiv.org/abs/2401.00008", SourcePlatform::ArXiv);
  canonical.workflow_state = WorkflowState::Queued;
  canonical.full_content = Some("kept".to_string());
  merge_fetched_item(&mut ws, canonical);

  let mut mirror = make_item("https://huggingface.co/papers/2401.00008", SourcePlatform::HuggingFace);
  mirror.github_repo = Some("https://github.com/o/r".to_string());
  mirror.github_owner = Some("o".to_string());
  mirror.github_repo_name = Some("r".to_string());
  mirror.full_content = Some("mirror text".to_string());
  mirror.title = "Mirror title".to_string();
  assert_eq!(merge_enriched_item(&mut ws, mirror), EnrichOutcome::Filled);

  let it = ws.items_store.get(0).unwrap();
  assert_eq!(it.github_repo.as_deref(), Some("https://github.com/o/r"));
  assert_eq!(it.github_owner.as_deref(), Some("o"));
  assert_eq!(it.github_repo_name.as_deref(), Some("r"));
  assert_eq!(it.full_content.as_deref(), Some("kept"));
  assert_eq!(it.title, "Test paper for https://arxiv.org/abs/2401.00008");
  assert_eq!(it.workflow_state, WorkflowState::Queued);
}

#[test]
fn enrichment_replacement_keeps_workflow_state_and_new_items_are_pushed() {
  let mut ws = Workspace::default();
  let mut first = make_item("test://enrich/a", SourcePlatform::Blog);
  first.workflow_state = WorkflowState::Archived;
  merge_fetched_item(&mut ws, first);
  let mut richer = make_item("test://enrich/a", SourcePlatform::Blog);
  richer.summary_short = "now with a summary".to_string();
  assert_eq!(merge_enriched_item(&mut ws, richer), EnrichOutcome::Replaced);
  let it = ws.items_store.get(0).unwrap();
  assert_eq!(it.summary_short, "now with a summary");
  assert_eq!(it.workflow_state, WorkflowState::Archived);
  assert_eq!(merge_enriched_item(&mut ws, make_item("test://enrich/b", SourcePlatform::Rss)), EnrichOutcome::Pushed);
  assert_eq!(ws.items_store.len(), 2);
}

fn progress(loading: &[&str]) -> FetchProgress {
  FetchProgress {
    is_loading: true,
    is_refreshing: true,
    loading_sources: loading.iter().map(|s| s.to_string()).collect(),
    loaded_sources: Vec::new(),
    status_message: None,
  }
}

fn summary() -> MergeSummary {
  MergeSummary { structural: false, source_updates: false, enriched_updates: false }
}

#[test]
fn refresh_messages_update_progress() {
  let mut ws = Workspace::default();
  let mut p = progress(&["arxiv", "hf", "arxiv"]);
  let mut s = summary();
  apply_fetch_message(&mut ws, &mut p, &mut s, FetchMessage::SourceComplete("arxiv".to_string()));
  assert_eq!(p.loading_sources, vec!["hf"]);
  assert_eq!(p.loaded_sources, vec!["arxiv"]);
  apply_fetch_message(&mut ws, &mut p, &mut s, FetchMessage::SourceError("hf".to_string(), "boom".to_string()));
  assert!(p.loading_sources.is_empty());
  assert_eq!(p.status_message.as_deref(), Some("boom"));
  assert!(p.is_loading && p.is_refreshing);
  apply_fetch_message(&mut ws, &mut p, &mut s, FetchMessage::AllComplete);
  assert!(!p.is_loading && !p.is_refreshing);
  assert!(!s.structural && !s.source_updates && !s.enriched_updates);
}

#[test]
fn batch_merges_then_sorts_newest_first() {
  let mut ws = Workspace::default();
  let mut p = progress(&[]);
  let mut s = summary();
  let mut old = make_item("test://batch/old", SourcePlatform::Blog);
  old.published_at = "2026-01-01".to_string();
  let mut new = make_item("test://batch/new", SourcePlatform::Blog);
  new.published_at = "2026-03-01".to_string();
  let mut mid = make_item("test://batch/mid", SourcePlatform::Blog);
  mid.published_at = "2026-02-01".to_string();
  apply_fetch_message(&mut ws, &mut p, &mut s, FetchMessage::Items(vec![old, new, mid]));
  assert!(s.structural && !s.source_updates);
  assert!(finish_fetch_batch(&mut ws, &s));
  let urls: Vec<&str> = ws.items_store.items().iter().map(|i| i.url.as_str()).collect();
  assert_eq!(urls, vec!["test://batch/new", "test://batch/mid", "test://batch/old"]);
  assert_eq!(ws.items_store.find_index_by_url("test://batch/old"), Some(2));
  let mut s2 = summary();
  apply_fetch_message(&mut ws, &mut p, &mut s2, FetchMessage::Items(vec![make_item("test://batch/mid", SourcePlatform::Blog)]));
  assert!(!s2.structural && s2.source_updates);
  assert!(finish_fetch_batch(&mut ws, &s2));
  assert!(!finish_fetch_batch(&mut ws, &summary()));
}

fn dated(url: &str, platform: SourcePlatform, published: &str) -> FeedItem {
  let mut it = make_item(url, platform);
  it.published_at = published.to_string();
  it
}

#[test]
fn discovery_merge_dedups_sorts_and_reindexes() {
  let mut d = DiscoveryModel::default();
  let mut persisted: StrMap<WorkflowState> = StrMap::new();
  persisted.insert("test://disc/b".to_string(), WorkflowState::Queued);

  merge_discovery_items(
    &mut d,
    &persisted,
    vec![
      dated("test://disc/a", SourcePlatform::Blog, "2026-01-01"),
      dated("test://disc/b", SourcePlatform::Blog, "2026-03-01"),
      dated("https://huggingface.co/papers/9999.99010", SourcePlatform::HuggingFace, "2026-02-01"),
    ],
  );
  // Newest first, indices rebuilt for the sorted positions.
  let urls: Vec<&str> = d.items.iter().map(|i| i.url.as_str()).collect();
  assert_eq!(
    urls,
    vec!["test://disc/b", "https://huggingface.co/papers/9999.99010", "test://disc/a"]
  );
  assert_eq!(d.items[0].workflow_state, WorkflowState::Queued);
  assert_eq!(d.url_index.get("test://disc/a"), Some(&2));
  assert_eq!(d.arxiv_id_index.get("9999.99010"), Some(&1));

  // A second batch: URL hit replaces; canonical arXiv replaces the mirror
  // keeping its workflow state.
  d.items[1].workflow_state = WorkflowState::DeepRead;
  let mut updated = dated("test://disc/a", SourcePlatform::Blog, "2026-01-01");
  updated.title = "Updated".to_string();
  merge_discovery_items(
    &mut d,
    &persisted,
    vec![
      updated,
      dated("https://arxiv.org/abs/9999.99010", SourcePlatform::ArXiv, "2026-02-01"),
    ],
  );
  assert_eq!(d.items.len(), 3);
  assert_eq!(d.items[2].title, "Updated");
  assert_eq!(d.items[1].url, "https://arxiv.org/abs/9999.99010");
  assert_eq!(d.items[1].workflow_state, WorkflowState::DeepRead);
  assert_eq!(d.url_index.get("https://arxiv.org/abs/9999.99010"), Some(&1));
  assert_eq!(d.url_index.get("https://huggingface.co/papers/9999.99010"), None);

  // Once re-indexed, an HF mirror of the known paper is dropped.
  merge_discovery_items(
    &mut d,
    &persisted,
    vec![dated("https://huggingface.co/papers/9999.99010", SourcePlatform::HuggingFace, "2026-02-02")],
  );
  assert_eq!(d.items.len(), 3);
  assert_eq!(d.items[1].url, "https://arxiv.org/abs/9999.99010");
}

#[test]
fn settling_a_first_batch_scrolls_inbox_to_top_and_routes_items_changed() {
  let mut ws = Workspace::default();
  let mut feed = FeedModel::default();
  feed.inbox_list.set_offset(4);
  let mut p = progress(&[]);
  let mut s = summary();
  apply_fetch_message(&mut ws, &mut p, &mut s, FetchMessage::Items(vec![make_item("test://settle/a", SourcePlatform::Blog)]));
  let effects = settle_fetch_batch(&mut ws, &mut feed, &s, true);
  assert_eq!(feed.inbox_list.offset(), 0);
  assert_eq!(effects.len(), 1);
  assert!(matches!(effects[0], Effect::ItemsChanged));
  let mut feed2 = FeedModel::default();
  feed2.inbox_list.set_offset(4);
  let effects2 = settle_fetch_batch(&mut ws, &mut feed2, &summary(), false);
  assert_eq!(feed2.inbox_list.offset(), 4);
  assert!(effects2.is_empty());
}
