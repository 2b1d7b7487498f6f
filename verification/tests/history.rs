use trench::history::{reconstruct_history_feed_item, HistoryEntry, HistoryKind, HistoryPaperMeta};
use trench::models::{ContentType, SignalLevel, SourcePlatform, WorkflowState};

#[test]
fn logged_paper_is_rebuilt_as_an_inbox_item() {
  let meta = HistoryPaperMeta {
    authors: vec!["Ada Lovelace".to_string(), "ÉMILE Borel".to_string()],
    source_platform: SourcePlatform::HuggingFace,
    published_at: "2026-03-01".to_string(),
    summary_short: "An abstract.".to_string(),
  };
  let entry = HistoryEntry {
    kind: HistoryKind::Paper,
    key: "https://huggingface.co/papers/2603.00001".to_string(),
    title: "Some TITLE".to_string(),
    title_lower: "some title".to_string(),
    source: "hf".to_string(),
    paper_meta: None,
  };
  let it = reconstruct_history_feed_item(&entry, &meta);
  assert_eq!(it.id, entry.key);
  assert_eq!(it.url, entry.key);
  assert_eq!(it.title, "Some TITLE");
  assert_eq!(it.title_lower, "some title");
  assert_eq!(it.source_platform, SourcePlatform::HuggingFace);
  assert_eq!(it.content_type, ContentType::Paper);
  assert_eq!(it.signal, SignalLevel::Tertiary);
  assert_eq!(it.workflow_state, WorkflowState::Inbox);
  assert_eq!(it.published_at, "2026-03-01");
  assert_eq!(it.summary_short, "An abstract.");
  assert_eq!(it.source_name, "hf");
  assert_eq!(it.authors, meta.authors);
  assert_eq!(it.authors_lower, vec!["ada lovelace", "émile borel"]);
  assert!(it.domain_tags.is_empty());
  assert_eq!(it.upvote_count, 0);
}
