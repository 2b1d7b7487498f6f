use trench::fixtures::variant;
use trench::models::{ContentType, SignalLevel, SourcePlatform, WorkflowState};

#[test]
fn variant_zero_fields() {
  let it = variant(0);
  assert_eq!(it.id, "bench-0");
  assert_eq!(it.title, "Synthetic Paper 00000: Studies on Benchmark-Driven Foo with Bar");
  assert_eq!(it.url, "https://arxiv.org/abs/2605.00000");
  assert_eq!(it.source_platform, SourcePlatform::ArXiv);
  assert_eq!(it.content_type, ContentType::Paper);
  assert_eq!(it.workflow_state, WorkflowState::Inbox);
  assert_eq!(it.signal, SignalLevel::Primary);
  assert_eq!(it.authors, vec!["Alice 000", "Bob 007", "Carol 013"]);
  assert_eq!(it.domain_tags, vec!["ml", "nlp"]);
  assert_eq!(it.published_at, "2026-05-17T00:00:00Z");
  assert_eq!(it.source_name, "bench");
  assert_eq!(it.upvote_count, 0);
  assert!(it.summary_short.starts_with("Abstract for synthetic item 0. We explore"));
}

#[test]
fn variant_spreads_enum_coverage() {
  let it = variant(7);
  assert_eq!(it.source_platform, SourcePlatform::Blog);
  assert_eq!(it.content_type, ContentType::Article);
  assert_eq!(it.workflow_state, WorkflowState::Archived);
  assert_eq!(it.signal, SignalLevel::Secondary);
  assert_eq!(it.upvote_count, 21);
  assert_eq!(it.authors, vec!["Alice 007", "Bob 014", "Carol 020"]);
}

#[test]
fn variant_is_deterministic_and_wide_indices_keep_digits() {
  let a = variant(123456);
  let b = variant(123456);
  assert_eq!(a.title, b.title);
  assert_eq!(a.url, "https://arxiv.org/abs/2605.123456");
  assert_eq!(a.upvote_count, ((123456u32 * 3) % 50) as u32);
  assert_eq!(a.authors[0], "Alice 056");
}
