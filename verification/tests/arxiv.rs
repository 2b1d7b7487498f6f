use std::time::Duration;
use trench::arxiv::{
  arxiv_wait_for, encode_arxiv_query, fetch_by_ids_url, fetch_page_url, fetch_search_phrase,
  fetch_url, normalize_arxiv_id, percent_encode_query_part, search_query_url,
  ARXIV_MIN_REQUEST_INTERVAL_NANOS,
};

fn wait_for(elapsed: Option<Duration>) -> Duration {
  Duration::from_nanos(arxiv_wait_for(elapsed.map(|d| d.as_nanos())) as u64)
}

#[test]
fn normalize_arxiv_id_handles_common_shapes() {
  assert_eq!(normalize_arxiv_id("2312.12345").as_deref(), Some("2312.12345"));
  assert_eq!(
    normalize_arxiv_id("https://arxiv.org/abs/2312.12345v3").as_deref(),
    Some("2312.12345"),
  );
  assert_eq!(
    normalize_arxiv_id("http://arxiv.org/abs/2312.12345v1").as_deref(),
    Some("2312.12345"),
  );
  assert_eq!(
    normalize_arxiv_id("arxiv.org/abs/2312.12345?context=cs.LG").as_deref(),
    Some("2312.12345"),
  );
  assert_eq!(normalize_arxiv_id(""), None);
  assert_eq!(normalize_arxiv_id("not an id"), None);
  assert_eq!(normalize_arxiv_id("https://openreview.net/forum?id=abc"), None);
}

#[test]
fn arxiv_wait_for_enforces_three_second_spacing() {
  let interval = Duration::from_nanos(ARXIV_MIN_REQUEST_INTERVAL_NANOS as u64);
  // No prior request → go immediately.
  assert_eq!(wait_for(None), Duration::ZERO);
  // Back-to-back → wait the full interval.
  assert_eq!(wait_for(Some(Duration::ZERO)), interval);
  // Part-way through the window → wait only the remainder.
  assert_eq!(
    wait_for(Some(Duration::from_millis(1000))),
    interval - Duration::from_millis(1000)
  );
  // At/past the interval → no wait (saturating, never underflows).
  assert_eq!(wait_for(Some(interval)), Duration::ZERO);
  assert_eq!(wait_for(Some(Duration::from_secs(10))), Duration::ZERO);
}

#[test]
fn interval_is_three_seconds() {
  assert_eq!(ARXIV_MIN_REQUEST_INTERVAL_NANOS, 3_000_000_000);
}

#[test]
fn normalize_keeps_non_numeric_v_suffix() {
  // A trailing `v` not followed by digits is part of the id.
  assert_eq!(normalize_arxiv_id("hep-th/9901v").as_deref(), None);
  assert_eq!(normalize_arxiv_id("2312.1234v5a").as_deref(), Some("2312.1234v5a"));
  assert_eq!(normalize_arxiv_id("  2401.00001#abs ").as_deref(), Some("2401.00001"));
}

#[test]
fn fetch_url_defaults_to_ml_categories() {
  assert_eq!(
    fetch_url(&[]),
    "https://export.arxiv.org/api/query?search_query=cat:cs.LG+OR+cat:cs.AI+OR+cat:stat.ML&sortBy=submittedDate&sortOrder=descending&start=0&max_results=50"
  );
}

#[test]
fn fetch_page_url_joins_categories() {
  let cats = vec!["cs.CL".to_string(), "math.NT".to_string()];
  assert_eq!(
    fetch_page_url(&cats, 100, 25),
    "https://export.arxiv.org/api/query?search_query=cat:cs.CL+OR+cat:math.NT&sortBy=submittedDate&sortOrder=descending&start=100&max_results=25"
  );
}

#[test]
fn percent_encoding_keeps_unreserved_bytes() {
  assert_eq!(percent_encode_query_part("a-b_c.d~9"), "a-b_c.d~9");
  assert_eq!(percent_encode_query_part("x&y"), "x%26y");
  assert_eq!(percent_encode_query_part("é"), "%C3%A9");
}

#[test]
fn query_words_join_with_and() {
  assert_eq!(encode_arxiv_query("  graph  neural nets "), "graph+AND+neural+AND+nets");
  assert_eq!(encode_arxiv_query(""), "");
}

#[test]
fn search_query_url_caps_results() {
  assert_eq!(
    search_query_url("deep learning", 500),
    "https://export.arxiv.org/api/query?search_query=all:deep+AND+learning&sortBy=relevance&sortOrder=descending&max_results=100"
  );
  assert!(search_query_url("x", 7).ends_with("&max_results=7"));
}

#[test]
fn search_phrase_wraps_words_in_quotes() {
  assert_eq!(
    fetch_search_phrase("  Attention \"Is\"  All You Need ").as_deref(),
    Some("all:\"Attention Is All You Need\"")
  );
  assert_eq!(fetch_search_phrase("   "), None);
}

#[test]
fn fetch_by_ids_url_normalizes_and_skips_invalid() {
  let ids = vec![
    "https://arxiv.org/abs/2312.12345v2".to_string(),
    "garbage".to_string(),
    "2401.00001".to_string(),
  ];
  assert_eq!(
    fetch_by_ids_url(&ids).as_deref(),
    Some("https://export.arxiv.org/api/query?id_list=2312.12345,2401.00001&max_results=2")
  );
  assert_eq!(fetch_by_ids_url(&["nope".to_string()]), None);
}

#[test]
fn title_lookup_requests_a_relevance_sorted_phrase_search() {
  assert_eq!(
    trench::arxiv::fetch_search_url("  Attention \"Is\" All  ").as_deref(),
    Some("https://export.arxiv.org/api/query?search_query=all%3A%22Attention+Is+All%22&sortBy=relevance&max_results=50")
  );
  assert_eq!(trench::arxiv::fetch_search_url("   "), None);
}
