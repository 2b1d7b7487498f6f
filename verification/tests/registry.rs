use trench::collections::StrMap;
use trench::models::{ContentType, SourcePlatform};
use trench::registry::{build_enrichments, build_sources, Config, CustomFeed, EnrichmentKind, SourceKind, SourcesConfig};

fn config() -> Config {
  Config {
    sources: SourcesConfig {
      enabled_sources: StrMap::new(),
      arxiv_categories: vec!["cs.LG".to_string()],
      custom_feeds: Vec::new(),
    },
    core_api_key: None,
    semantic_scholar_key: None,
  }
}

fn names(sources: &[SourceKind]) -> Vec<String> {
  sources
    .iter()
    .map(|s| match s {
      SourceKind::Arxiv { .. } => "arxiv".to_string(),
      SourceKind::HuggingFace => "huggingface".to_string(),
      SourceKind::OpenReview => "openreview".to_string(),
      SourceKind::Core => "core".to_string(),
      SourceKind::Rss { source_name, .. } => source_name.clone(),
    })
    .collect()
}

#[test]
fn defaults_enable_everything_but_keyless_core() {
  let s = build_sources(&config());
  assert_eq!(
    names(&s),
    vec!["arxiv", "huggingface", "openreview", "openai", "deepmind", "import_ai", "bair", "mit_news_ai"]
  );
  match &s[0] {
    SourceKind::Arxiv { categories } => assert_eq!(categories, &vec!["cs.LG".to_string()]),
    _ => panic!("arxiv first"),
  }
  match &s[5] {
    SourceKind::Rss { feed_url, platform, content_type, .. } => {
      assert_eq!(feed_url, "https://importai.substack.com/feed");
      assert_eq!(*platform, SourcePlatform::Newsletter);
      assert_eq!(*content_type, ContentType::Digest);
    }
    _ => panic!("import_ai feed"),
  }
}

#[test]
fn switches_and_keys_gate_sources() {
  let mut c = config();
  c.sources.enabled_sources.insert("openreview".to_string(), false);
  c.sources.enabled_sources.insert("openai".to_string(), false);
  c.sources.enabled_sources.insert("bair".to_string(), true);
  c.core_api_key = Some("key".to_string());
  c.sources.custom_feeds.push(CustomFeed { name: "lab".to_string(), url: "https://lab/rss".to_string() });
  let s = build_sources(&c);
  assert_eq!(
    names(&s),
    vec!["arxiv", "huggingface", "core", "deepmind", "import_ai", "bair", "mit_news_ai", "lab"]
  );
  match s.last().unwrap() {
    SourceKind::Rss { feed_url, platform, content_type, .. } => {
      assert_eq!(feed_url, "https://lab/rss");
      assert_eq!(*platform, SourcePlatform::Rss);
      assert_eq!(*content_type, ContentType::Article);
    }
    _ => panic!("custom feed last"),
  }
}

#[test]
fn core_needs_switch_and_key() {
  let mut c = config();
  c.core_api_key = Some("key".to_string());
  c.sources.enabled_sources.insert("core".to_string(), false);
  assert!(!names(&build_sources(&c)).contains(&"core".to_string()));
}

#[test]
fn semantic_scholar_needs_a_non_blank_key() {
  let mut c = config();
  assert_eq!(build_enrichments(&c), vec![EnrichmentKind::HuggingFaceRepo]);
  c.semantic_scholar_key = Some("   ".to_string());
  assert_eq!(build_enrichments(&c), vec![EnrichmentKind::HuggingFaceRepo]);
  c.semantic_scholar_key = Some("k".to_string());
  assert_eq!(
    build_enrichments(&c),
    vec![EnrichmentKind::SemanticScholar, EnrichmentKind::HuggingFaceRepo]
  );
}

#[test]
fn disabled_custom_feed_is_left_out() {
  let mut c = config();
  c.sources.custom_feeds.push(CustomFeed { name: "lab".to_string(), url: "https://lab/rss".to_string() });
  c.sources.custom_feeds.push(CustomFeed { name: "club".to_string(), url: "https://club/rss".to_string() });
  c.sources.enabled_sources.insert("lab".to_string(), false);
  let n = names(&build_sources(&c));
  assert!(!n.contains(&"lab".to_string()));
  assert_eq!(n.last(), Some(&"club".to_string()));
}
