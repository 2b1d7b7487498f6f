use trench::util::is_safe_url_scheme;


#[test]
fn accepts_https_and_http() {
  assert!(is_safe_url_scheme("https://arxiv.org/abs/2603.00001"));
  assert!(is_safe_url_scheme("https://github.com/owner/repo"));
  assert!(is_safe_url_scheme("http://legacy.example.edu/proceedings"));
}

#[test]
fn rejects_local_handler_schemes() {
  // These would dispatch to whatever handler the user has registered.
  assert!(!is_safe_url_scheme("javascript:alert(1)"));
  assert!(!is_safe_url_scheme("file:///etc/passwd"));
  assert!(!is_safe_url_scheme("vscode://settings"));
  assert!(!is_safe_url_scheme("slack://channel?id=abc"));
  assert!(!is_safe_url_scheme("mailto:user@example.com"));
}

#[test]
fn rejects_empty_and_scheme_only() {
  assert!(!is_safe_url_scheme(""));
  assert!(!is_safe_url_scheme("https"));
  assert!(!is_safe_url_scheme("http"));
}

#[test]
fn accepts_mixed_case_schemes() {
  // Per RFC 3986 §3.1 schemes are case-insensitive; RSS feeds in the
  // wild do ship `Https://` URLs that we shouldn't silently refuse.
  assert!(is_safe_url_scheme("HTTPS://arxiv.org/abs/2603.00001"));
  assert!(is_safe_url_scheme("Http://example.com"));
  assert!(is_safe_url_scheme("hTTpS://github.com/owner/repo"));
}
