use trench::collections::StrMap;
use trench::feed_keys::FeedKey;
use trench::registry::{Config, CustomFeed, SourcesConfig};
use trench::sources_popup::{sources_popup_key, PopupEffect, SourcesDetect, SourcesPopupState};
use trench::state::simple::DiscoverResult;

fn config() -> Config {
  Config {
    sources: SourcesConfig {
      enabled_sources: StrMap::new(),
      arxiv_categories: vec!["cs.LG".to_string()],
      custom_feeds: vec![CustomFeed { name: "lab".to_string(), url: "https://lab/rss".to_string() }],
    },
    core_api_key: None,
    semantic_scholar_key: None,
  }
}

fn popup() -> SourcesPopupState {
  SourcesPopupState { cursor: 0, input: String::new(), input_active: false, detect: SourcesDetect::Idle }
}

fn strs(v: &[&str]) -> Vec<String> {
  v.iter().map(|s| s.to_string()).collect()
}

#[test]
fn rows_toggle_categories_and_sources_and_delete_custom_feeds() {
  let cats = strs(&["cs.LG", "cs.AI"]);
  let pre = strs(&["openai"]);
  let mut c = config();
  let mut p = popup();
  // Rows: input, cs.LG, cs.AI, openai, lab.
  for _ in 0..10 {
    sources_popup_key(&mut p, &mut c, FeedKey::Char('j'), &cats, &pre);
  }
  assert_eq!(p.cursor, 4);
  p.cursor = 1;
  assert!(matches!(sources_popup_key(&mut p, &mut c, FeedKey::Char(' '), &cats, &pre), PopupEffect::SavedAndRefresh));
  assert!(c.sources.arxiv_categories.is_empty());
  p.cursor = 2;
  sources_popup_key(&mut p, &mut c, FeedKey::Char(' '), &cats, &pre);
  assert_eq!(c.sources.arxiv_categories, strs(&["cs.AI"]));
  p.cursor = 3;
  assert!(matches!(sources_popup_key(&mut p, &mut c, FeedKey::Char(' '), &cats, &pre), PopupEffect::SourceToggled));
  assert_eq!(c.sources.enabled_sources.get("openai"), Some(&false));
  p.cursor = 4;
  assert!(matches!(sources_popup_key(&mut p, &mut c, FeedKey::Char('d'), &cats, &pre), PopupEffect::Saved));
  assert!(c.sources.custom_feeds.is_empty());
  assert_eq!(p.cursor, 3);
  assert!(matches!(sources_popup_key(&mut p, &mut c, FeedKey::Esc, &cats, &pre), PopupEffect::CloseToSettings));
  assert_eq!(p.cursor, 0);
}

#[test]
fn input_detects_and_applies_a_result() {
  let mut c = config();
  let mut p = popup();
  sources_popup_key(&mut p, &mut c, FeedKey::Enter, &[], &[]);
  assert!(p.input_active);
  for ch in "https://x".chars() {
    sources_popup_key(&mut p, &mut c, FeedKey::Char(ch), &[], &[]);
  }
  match sources_popup_key(&mut p, &mut c, FeedKey::Enter, &[], &[]) {
    PopupEffect::StartDetection(u) => assert_eq!(u, "https://x"),
    _ => panic!("expected detection"),
  }
  assert!(matches!(p.detect, SourcesDetect::Detecting));
  p.detect = SourcesDetect::Result(DiscoverResult::RssFeed { url: "https://x".to_string(), name: "X".to_string() });
  assert!(matches!(sources_popup_key(&mut p, &mut c, FeedKey::Enter, &[], &[]), PopupEffect::SavedAndRefresh));
  assert_eq!(c.sources.custom_feeds.len(), 2);
  assert_eq!(c.sources.custom_feeds[1].name, "X");
  assert!(!p.input_active && p.input.is_empty());
  assert!(matches!(p.detect, SourcesDetect::Idle));
}
