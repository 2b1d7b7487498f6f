use trench::taxonomy::{all_categories, find_category, group_count};


// K1 tripwire pre-condition: the static table has exactly 8 groups
// and ~155 categories. arXiv hasn't added a new top-level group in
// over a decade; an off-by-one here is almost certainly an accidental
// edit, not a real schema change. These tests anchor PR 3's
// `scripts/check-subject-browser.sh` K1 invariant.

#[test]
fn taxonomy_has_eight_groups() {
  assert_eq!(group_count(), 8, "arXiv has 8 top-level groups");
}

#[test]
fn taxonomy_category_count_matches_arxiv() {
  // 155 is the current arxiv.org/category_taxonomy count as of 2026-05.
  // If this number drifts, refresh from the canonical source and
  // update K1 in scripts/check-subject-browser.sh in lockstep.
  assert_eq!(all_categories().count(), 155);
}

#[test]
fn find_category_round_trips() {
  let c = find_category("cs.LG").expect("cs.LG is in the table");
  assert_eq!(c.code, "cs.LG");
  assert_eq!(c.name, "Machine Learning");
}

#[test]
fn find_category_returns_none_for_unknown() {
  assert!(find_category("not.a.real.code").is_none());
  assert!(find_category("").is_none());
}

#[test]
fn every_category_code_is_unique() {
  // Duplicate codes would silently shadow each other in find_category
  // and double-count in all_categories — catch a copy-paste error in
  // the static table at test time, not in production.
  let mut codes: Vec<&str> = all_categories().map(|c| c.code).collect();
  codes.sort_unstable();
  let n = codes.len();
  codes.dedup();
  assert_eq!(codes.len(), n, "category codes must be unique across the table");
}
