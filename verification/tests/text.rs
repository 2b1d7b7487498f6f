use trench::text::{join_strings, lowercase, parse_usize, split_whitespace};

#[test]
fn usize_parsing_follows_from_str() {
  assert_eq!(parse_usize("42"), Some(42));
  assert_eq!(parse_usize("+7"), Some(7));
  assert_eq!(parse_usize("-7"), None);
  assert_eq!(parse_usize(""), None);
  assert_eq!(parse_usize("+"), None);
  assert_eq!(parse_usize("12a"), None);
  assert_eq!(parse_usize("99999999999999999999999"), None);
  assert_eq!(parse_usize(&usize::MAX.to_string()), Some(usize::MAX));
}

#[test]
fn split_and_join_round_trip_words() {
  let w = split_whitespace("  one\ttwo \n three ");
  assert_eq!(w, vec!["one", "two", "three"]);
  assert_eq!(join_strings(&w, "-"), "one-two-three");
  assert_eq!(join_strings(&Vec::new(), "-"), "");
}

#[test]
fn lowercase_handles_unicode() {
  assert_eq!(lowercase("ÄbC"), "äbc");
}

#[test]
fn lowercase_uses_final_sigma_at_word_end() {
  // Capital sigma ending a word lowers to the final form.
  assert_eq!(lowercase("\u{39f}\u{394}\u{39f}\u{3a3}"), "\u{3bf}\u{3b4}\u{3bf}\u{3c2}");
  assert_eq!(lowercase("Hello WORLD"), "hello world");
}
