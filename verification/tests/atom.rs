use trench::atom::{collapse_whitespace, complete_arxiv_item, fold_atom_events, parse_atom, parse_atom_entries, XmlEvent};
use trench::models::{SignalLevel, SourcePlatform, WorkflowState};

#[test]
fn parse_atom_rejects_rate_limit_body_as_error() {
  let err = match parse_atom("Rate exceeded.") {
    Ok(_) => panic!("throttle must error"),
    Err(e) => e,
  };
  assert!(err.contains("rate limit"), "rate-limit body should yield a rate-limit error, got: {err}");
}

#[test]
fn parse_atom_rejects_non_feed_body_as_error() {
  assert!(parse_atom("<html><body>502 Bad Gateway</body></html>").is_err());
}

#[test]
fn parse_atom_accepts_empty_feed_as_zero_items() {
  let xml = r#"<?xml version="1.0" encoding="UTF-8"?>
<feed xmlns="http://www.w3.org/2005/Atom" xmlns:opensearch="http://a9.com/-/spec/opensearch/1.1/">
  <opensearch:totalResults>0</opensearch:totalResults>
</feed>"#;
  let items = match parse_atom(xml) {
    Ok(v) => v,
    Err(e) => panic!("an empty feed is a valid response: {e}"),
  };
  assert!(items.is_empty());
}

#[test]
fn parse_atom_reads_entry_fields() {
  let xml = r#"<?xml version="1.0" encoding="UTF-8"?>
<feed xmlns="http://www.w3.org/2005/Atom" xmlns:arxiv="http://arxiv.org/schemas/atom">
  <title>ArXiv Query</title>
  <entry>
    <id>http://arxiv.org/abs/2401.00001v1</id>
    <title>Sample &amp; Paper</title>
    <summary>This is the abstract.</summary>
    <published>2026-04-01T00:00:00Z</published>
    <author><name>  Ada Lovelace </name></author>
    <author><name>   </name></author>
    <author><name>Alan Turing</name></author>
    <arxiv:comment>16 pages, 4 figures. Code at github.com/foo/bar</arxiv:comment>
    <category term="cs.LG" scheme="http://arxiv.org/schemas/atom"/>
    <category term="stat.ML"/>
    <category term="cs.LG"/>
  </entry>
  <entry>
    <id>http://arxiv.org/abs/2401.00002v2</id>
    <title>Second</title>
    <published>2026-04-02</published>
  </entry>
</feed>"#;
  let entries = parse_atom_entries(xml).unwrap_or_else(|e| panic!("parse ok: {e}"));
  assert_eq!(entries.len(), 2);
  let e = &entries[0];
  assert_eq!(e.url, "http://arxiv.org/abs/2401.00001v1");
  assert_eq!(e.title, "Sample & Paper");
  assert_eq!(e.summary, "This is the abstract.");
  assert_eq!(e.date, "2026-04-01");
  assert_eq!(e.authors, vec!["Ada Lovelace", "Alan Turing"]);
  assert!(e.comment.contains("github.com/foo/bar"));
  assert_eq!(e.categories, vec!["cs.LG", "stat.ML"]);
  let f = &entries[1];
  assert_eq!(f.date, "2026-04-02");
  assert!(f.authors.is_empty() && f.categories.is_empty() && f.summary.is_empty());
}

#[test]
fn parse_atom_reports_reader_errors() {
  let err = match parse_atom("<feed><entry></feed>") {
    Ok(_) => panic!("mismatched tags must error"),
    Err(e) => e,
  };
  assert!(err.starts_with("XML parse error: "), "{err}");
}

fn b(s: &str) -> Vec<u8> {
  s.as_bytes().to_vec()
}

#[test]
fn fold_reads_events_in_order() {
  let events = vec![
    XmlEvent::Start(b("feed")),
    XmlEvent::Text(Some("ignored outside entries".to_string())),
    XmlEvent::Start(b("entry")),
    XmlEvent::Start(b("title")),
    XmlEvent::Text(Some("Part one".to_string())),
    XmlEvent::Text(Some(", part two".to_string())),
    XmlEvent::End(b("title")),
    XmlEvent::Start(b("published")),
    XmlEvent::Text(Some("2025-12-31".to_string())),
    XmlEvent::End(b("published")),
    XmlEvent::Start(b("author")),
    XmlEvent::Start(b("name")),
    XmlEvent::Text(None),
    XmlEvent::Text(Some(" Grace Hopper\t".to_string())),
    XmlEvent::End(b("name")),
    XmlEvent::End(b("author")),
    XmlEvent::Empty(b("link"), b(" term=\"not-a-category\"")),
    XmlEvent::Other,
    XmlEvent::End(b("entry")),
    XmlEvent::End(b("feed")),
  ];
  let entries = fold_atom_events(&events);
  assert_eq!(entries.len(), 1);
  assert_eq!(entries[0].title, "Part one, part two");
  assert_eq!(entries[0].date, "2025-12-31");
  assert_eq!(entries[0].authors, vec!["Grace Hopper"]);
  assert!(entries[0].categories.is_empty());
  assert!(entries[0].url.is_empty());
}

#[test]
fn parse_atom_folds_arxiv_comment_into_summary() {
  let xml = r#"<?xml version="1.0" encoding="UTF-8"?>
<feed xmlns="http://www.w3.org/2005/Atom" xmlns:arxiv="http://arxiv.org/schemas/atom">
  <entry>
    <id>http://arxiv.org/abs/2401.00001v1</id>
    <title>Sample Paper</title>
    <summary>This is the abstract.</summary>
    <published>2026-04-01T00:00:00Z</published>
    <arxiv:comment>16 pages, 4 figures. Code at github.com/foo/bar</arxiv:comment>
  </entry>
</feed>"#;
  let items = parse_atom(xml).expect("parse ok");
  assert_eq!(items.len(), 1);
  assert!(
    items[0].summary_short.contains("github.com/foo/bar"),
    "expected comment text in summary_short, got: {}",
    items[0].summary_short
  );
  assert!(items[0].summary_short.contains("This is the abstract."));
}

#[test]
fn arxiv_items_carry_entry_fields() {
  let xml = r#"<feed><entry><id>http://arxiv.org/abs/2401.00002v1</id><title>  Two
   Words </title><summary>Abs</summary><published>2026-04-01T00:00:00Z</published><arxiv:comment>c</arxiv:comment></entry></feed>"#;
  let items = parse_atom(xml).expect("parse ok");
  assert_eq!(items.len(), 1);
  let it = &items[0];
  assert_eq!(it.title, "Two Words");
  assert_eq!(it.summary_short, "Abs [c]");
  assert_eq!(it.published_at, "2026-04-01");
  assert_eq!(it.url, "http://arxiv.org/abs/2401.00002v1");
  assert_eq!(it.id, it.url);
  assert_eq!(it.workflow_state, WorkflowState::Inbox);
  assert_eq!(it.source_platform, SourcePlatform::ArXiv);
  assert_eq!(it.source_name, "arxiv");
}

#[test]
fn collapse_whitespace_joins_words_with_single_spaces() {
  assert_eq!(collapse_whitespace("  a \n\t b  c "), "a b c");
  assert_eq!(collapse_whitespace("   "), "");
}

#[test]
fn completed_arxiv_items_add_labels_and_subtopics_once() {
  let xml = r#"<feed><entry><id>http://arxiv.org/abs/2401.00003v1</id><title>T</title><published>2026-04-01</published><category term="cs.LG"/><category term="stat.ML"/></entry></feed>"#;
  let items = parse_atom(xml).expect("parse ok");
  let it = complete_arxiv_item(
    items.into_iter().next().unwrap(),
    &[Some("Machine Learning".to_string()), Some("Machine Learning".to_string())],
    &["LLM".to_string(), "cs.LG".to_string()],
    SignalLevel::Secondary,
  );
  assert_eq!(it.domain_tags, vec!["cs.LG", "stat.ML", "Machine Learning", "LLM"]);
  assert_eq!(it.signal, SignalLevel::Secondary);
  assert_eq!(it.title, "T");
}
