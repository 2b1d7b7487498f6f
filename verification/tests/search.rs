use trench::models::FeedItem;
use trench::search::{tokenize, Query, YearConstraint};


fn item(
  title: &str,
  authors: &[&str],
  summary: &str,
  year: &str,
) -> FeedItem {
  let mut it = trench::fixtures::variant(0);
  it.title = title.to_string();
  it.authors = authors.iter().map(|s| s.to_string()).collect();
  it.summary_short = summary.to_string();
  it.published_at = format!("{year}-01-01T00:00:00Z");
  it
}

#[test]
fn empty_query_is_empty() {
  assert!(Query::parse("").is_empty());
  assert!(Query::parse("   ").is_empty());
  assert!(!Query::parse("transformers").is_empty());
}

#[test]
fn tokenize_groups_quoted_values() {
  assert_eq!(
    tokenize(r#"author:"Yann LeCun" deep"#),
    vec!["author:Yann LeCun".to_string(), "deep".to_string(),]
  );
}

#[test]
fn parse_routes_field_prefixes() {
  let q = Query::parse(r#"ti:diffusion au:"Jane Doe" abs:elbo free"#);
  assert_eq!(q.title, vec!["diffusion"]);
  assert_eq!(q.author, vec!["Jane Doe"]);
  assert_eq!(q.summary, vec!["elbo"]);
  assert_eq!(q.free, vec!["free"]);
}

#[test]
fn unknown_prefix_is_free_text() {
  // A colon that isn't a known field stays a single free term, so
  // pasted URLs / ratios don't get silently dropped.
  let q = Query::parse("http://example.com");
  assert!(q.title.is_empty() && q.author.is_empty());
  assert_eq!(q.free, vec!["http://example.com"]);
}

#[test]
fn year_constraint_parsing() {
  assert_eq!(
    Query::parse("year:2024").year,
    Some(YearConstraint::Exact(2024))
  );
  assert_eq!(
    Query::parse("year:2020-2024").year,
    Some(YearConstraint::Range(2020, 2024))
  );
  assert_eq!(
    Query::parse("year:>2020").year,
    Some(YearConstraint::AtLeast(2021))
  );
  assert_eq!(
    Query::parse("year:>=2020").year,
    Some(YearConstraint::AtLeast(2020))
  );
  assert_eq!(
    Query::parse("year:<2024").year,
    Some(YearConstraint::AtMost(2023))
  );
  // Unparseable → no constraint, and not demoted to free text.
  let bad = Query::parse("year:soon");
  assert!(bad.year.is_none() && bad.free.is_empty());
}

#[test]
fn year_gate_excludes_out_of_range() {
  let q = Query::parse("year:2024");
  assert!(q.passes_gates(&item("Any", &["A"], "x", "2024")));
  assert!(!q.passes_gates(&item("Any", &["A"], "x", "2019")));
}

#[test]
fn cat_gate_matches_exact_code_and_archive() {
  let mut paper = item("Some Paper", &["A"], "x", "2024");
  paper.domain_tags = vec!["cs.LG".to_string()];
  assert!(Query::parse("cat:cs.LG").passes_gates(&paper)); // exact code
  assert!(Query::parse("cat:cs").passes_gates(&paper)); // archive-level
  assert!(Query::parse("cat:CS.lg").passes_gates(&paper)); // case-insensitive
  assert!(!Query::parse("cat:math.NT").passes_gates(&paper)); // different cat
}

#[test]
fn substring_field_scope_restricts_to_its_field() {
  let q = Query::parse("au:hinton");
  let by_hinton = item("Capsules", &["Geoffrey Hinton"], "x", "2024");
  let by_other = item("Capsules", &["Yann LeCun"], "x", "2024");
  assert!(q.matches_substring(&by_hinton));
  assert!(!q.matches_substring(&by_other));
}

#[test]
fn substring_all_free_terms_must_match() {
  let q = Query::parse("diffusion robotics");
  let both = item("Diffusion Policies for Robotics", &["A"], "", "2023");
  let one = item("Diffusion Models", &["A"], "image synthesis", "2023");
  assert!(q.matches_substring(&both));
  assert!(!q.matches_substring(&one));
}

#[test]
fn substring_respects_cat_gate() {
  let mut ml = item("Attention", &["A"], "x", "2024");
  ml.domain_tags = vec!["cs.LG".to_string()];
  let mut nt = item("Attention", &["A"], "x", "2024");
  nt.domain_tags = vec!["math.NT".to_string()];
  let q = Query::parse("cat:cs attention");
  assert!(q.matches_substring(&ml));
  assert!(!q.matches_substring(&nt));
}

#[test]
fn parse_routes_cat_prefix() {
  let q = Query::parse("cat:cs.LG transformers");
  assert_eq!(q.category, vec!["cs.LG"]);
  assert_eq!(q.free, vec!["transformers"]);
}

#[test]
fn substring_match_lowers_a_word_final_sigma_to_its_final_form() {
  // "ΟΔΟΣ" lowers to "οδος" with a final sigma, so a needle typed with
  // the final form finds it.
  let it = item("\u{39f}\u{394}\u{39f}\u{3a3}", &[], "", "2024");
  assert!(Query::parse("\u{3bf}\u{3b4}\u{3bf}\u{3c2}").matches_substring(&it));
}
