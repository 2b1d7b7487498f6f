use trench::collections::StrSet;
use trench::util::{build_loading_sources, encode_repo_url_path, toggle_set, truncate_for_notif};

#[test]
fn truncate_keeps_short_text() {
  assert_eq!(truncate_for_notif("hello", 10), "hello");
  assert_eq!(truncate_for_notif("hello", 5), "hello");
}

#[test]
fn truncate_adds_ellipsis_when_two_or_more_are_cut() {
  assert_eq!(truncate_for_notif("hello!", 4), "hell…");
  assert_eq!(truncate_for_notif("ünïcödé", 3), "ünï…");
}

#[test]
fn truncate_drops_a_single_extra_character_without_ellipsis() {
  // One character over the limit is cut without an ellipsis.
  assert_eq!(truncate_for_notif("hello", 4), "hell");
}

#[test]
fn truncate_is_bounded_by_limit_plus_ellipsis() {
  let s = "a very long notification text";
  for max in 0..40 {
    let t = truncate_for_notif(s, max);
    assert!(t.chars().count() <= max + 1);
    assert!(t.chars().count() <= s.chars().count());
  }
}

#[test]
fn loading_sources_lists_builtins_then_custom_feeds() {
  let out = build_loading_sources(&["my_blog".to_string(), "lab".to_string()]);
  assert_eq!(
    out,
    vec![
      "arxiv", "huggingface", "openreview", "core", "openai", "deepmind", "import_ai", "bair",
      "mit_news_ai", "enriching", "my_blog", "lab",
    ]
  );
  assert_eq!(build_loading_sources(&[]).len(), 10);
}

#[test]
fn repo_path_encoding_keeps_slashes() {
  assert_eq!(encode_repo_url_path("src/main.rs"), "src/main.rs");
  assert_eq!(encode_repo_url_path("docs/a b#c.md"), "docs/a%20b%23c.md");
  assert_eq!(encode_repo_url_path("ä"), "%C3%A4");
}

#[test]
fn toggle_adds_then_removes() {
  let mut s = StrSet::new();
  toggle_set(&mut s, "x".to_string());
  assert!(s.contains("x"));
  toggle_set(&mut s, "x".to_string());
  assert!(!s.contains("x"));
  assert!(s.is_empty());
}
