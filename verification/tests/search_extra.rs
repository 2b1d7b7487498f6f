use trench::fixtures::variant;
use trench::search::{item_year, tokenize, Query, YearConstraint};

#[test]
fn year_bounds_inclusive_and_reversed_ranges() {
  assert_eq!(Query::parse("year:<=2020").year, Some(YearConstraint::AtMost(2020)));
  assert_eq!(Query::parse("yr:1990-1980").year, Some(YearConstraint::Range(1980, 1990)));
  assert_eq!(Query::parse("year: 2001 ").year, None);
  assert_eq!(Query::parse("year:\" 2001 \"").year, Some(YearConstraint::Exact(2001)));
  assert!(YearConstraint::Range(2000, 2002).satisfied_by(2002));
  assert!(!YearConstraint::AtLeast(2000).satisfied_by(1999));
}

#[test]
fn empty_field_value_stays_free_text() {
  let q = Query::parse("ti: cat:");
  assert_eq!(q.free, vec!["ti:", "cat:"]);
  assert!(q.title.is_empty() && q.category.is_empty());
}

#[test]
fn tokenizer_drops_quotes_and_splits_on_unicode_space() {
  assert_eq!(tokenize("a\u{3000}b \"c d\""), vec!["a", "b", "c d"]);
  assert!(tokenize(" \t ").is_empty());
}

#[test]
fn item_year_reads_first_four_characters() {
  let mut it = variant(1);
  assert_eq!(item_year(&it), Some(2026));
  it.published_at = "20".to_string();
  assert_eq!(item_year(&it), None);
  it.published_at = "abcd-01".to_string();
  assert_eq!(item_year(&it), None);
}

#[test]
fn author_and_summary_terms_are_case_insensitive() {
  let mut it = variant(2);
  it.authors = vec!["Geoffrey HINTON".to_string()];
  it.summary_short = "Capsule Networks".to_string();
  assert!(Query::parse("au:hinton abs:capsule").matches_substring(&it));
  assert!(Query::parse("networks").matches_substring(&it));
  assert!(!Query::parse("abs:transformer").matches_substring(&it));
  assert!(!Query::parse("year:2020").matches_substring(&it));
}

#[test]
fn year_bounds_past_i32_are_refused_by_try_parse() {
  assert!(Query::has_overflowing_year("year:>2147483647"));
  assert!(Query::has_overflowing_year("x yr:<-2147483648"));
  assert!(!Query::has_overflowing_year("year:>=2147483647 year:2020"));
  assert!(Query::try_parse("year:>2147483647").is_none());
  assert_eq!(
    Query::try_parse("year:>2020").map(|q| q.year),
    Some(Some(YearConstraint::AtLeast(2021)))
  );
  assert!(trench::search::year_value_overflows(" > 2147483647 "));
  assert!(!trench::search::year_value_overflows(">2147483646"));
}
