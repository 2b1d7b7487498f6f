use trench::fixtures::variant;
use trench::history::{history_item, history_item_target, HistoryEntry, HistoryKind, HistoryPaperMeta};
use trench::models::{SourcePlatform, WorkflowState};
use trench::state::discovery::DiscoveryModel;
use trench::state::feed::FeedTab;
use trench::workspace::{find_item_by_arxiv_id, find_item_by_url, Workspace};

fn entry(kind: HistoryKind, key: &str, meta: Option<HistoryPaperMeta>) -> HistoryEntry {
  HistoryEntry {
    kind,
    key: key.to_string(),
    title: "Logged".to_string(),
    title_lower: "logged".to_string(),
    source: "arxiv".to_string(),
    paper_meta: meta,
  }
}

fn meta() -> HistoryPaperMeta {
  HistoryPaperMeta {
    authors: vec!["A".to_string()],
    source_platform: SourcePlatform::ArXiv,
    published_at: "2026-01-01".to_string(),
    summary_short: String::new(),
  }
}

fn setup() -> (Workspace, DiscoveryModel) {
  let mut ws = Workspace::default();
  let mut queued = variant(1);
  queued.workflow_state = WorkflowState::Queued;
  ws.items_store.push(variant(0));
  ws.items_store.push(queued);
  let mut d = DiscoveryModel::default();
  d.items.push(variant(7));
  d.rebuild_discovery_indices();
  (ws, d)
}

#[test]
fn query_entries_lead_nowhere() {
  let (ws, d) = setup();
  let e = entry(HistoryKind::Query, "transformers", Some(meta()));
  assert!(history_item(&e, &ws, &d).is_none());
  assert!(history_item_target(&e, &ws, &d).is_none());
}

#[test]
fn corpus_hit_by_url_and_by_arxiv_id() {
  let (ws, d) = setup();
  let e = entry(HistoryKind::Paper, "https://arxiv.org/abs/2605.00001", None);
  let it = history_item(&e, &ws, &d).unwrap();
  assert_eq!(it.url, "https://arxiv.org/abs/2605.00001");
  assert_eq!(it.title, variant(1).title);
  let (tab, st, url) = history_item_target(&e, &ws, &d).unwrap();
  assert!(tab == FeedTab::Library && st == WorkflowState::Queued);
  assert_eq!(url, "https://arxiv.org/abs/2605.00001");
  // The HuggingFace mirror of the same paper resolves through the arXiv id.
  let hf = entry(HistoryKind::Paper, "https://huggingface.co/papers/2605.00000", None);
  let it = history_item(&hf, &ws, &d).unwrap();
  assert_eq!(it.url, "https://arxiv.org/abs/2605.00000");
  let (tab, _, _) = history_item_target(&hf, &ws, &d).unwrap();
  assert!(tab == FeedTab::Inbox);
}

#[test]
fn discovery_hit_and_rebuild_fallback() {
  let (ws, d) = setup();
  let e = entry(HistoryKind::Paper, "https://arxiv.org/abs/2605.00007", None);
  let it = history_item(&e, &ws, &d).unwrap();
  assert_eq!(it.title, variant(7).title);
  let (tab, _, url) = history_item_target(&e, &ws, &d).unwrap();
  assert!(tab == FeedTab::Discoveries);
  assert_eq!(url, "https://arxiv.org/abs/2605.00007");
  let gone = entry(HistoryKind::Paper, "https://example.com/post", Some(meta()));
  let it = history_item(&gone, &ws, &d).unwrap();
  assert_eq!(it.url, "https://example.com/post");
  assert_eq!(it.title, "Logged");
  assert!(history_item_target(&gone, &ws, &d).is_none());
  let bare = entry(HistoryKind::Paper, "https://example.com/post", None);
  assert!(history_item(&bare, &ws, &d).is_none());
}

#[test]
fn find_item_prefers_corpus_then_discoveries() {
  let (ws, d) = setup();
  let hit = find_item_by_url(&ws, &d, "https://arxiv.org/abs/2605.00001").unwrap();
  assert_eq!(hit.workflow_state, WorkflowState::Queued);
  let hit = find_item_by_url(&ws, &d, "https://arxiv.org/abs/2605.00007").unwrap();
  assert_eq!(hit.title, variant(7).title);
  assert!(find_item_by_url(&ws, &d, "https://nowhere").is_none());
  assert_eq!(find_item_by_arxiv_id(&ws, &d, "2605.00000").unwrap().url, "https://arxiv.org/abs/2605.00000");
  assert_eq!(find_item_by_arxiv_id(&ws, &d, "2605.00007").unwrap().url, "https://arxiv.org/abs/2605.00007");
  assert!(find_item_by_arxiv_id(&ws, &d, "1234.5678").is_none());
}
