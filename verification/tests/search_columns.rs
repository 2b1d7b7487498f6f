use trench::fixtures::variant;
use trench::search::Query;
use trench::search_columns::{item_columns, query_columns, COLUMNS};

#[test]
fn item_columns_put_title_first_in_combined() {
  let mut it = variant(0);
  it.title = "T".to_string();
  it.authors = vec!["A One".to_string(), "B Two".to_string()];
  it.summary_short = "S".to_string();
  let c = item_columns(&it);
  assert_eq!(c.len(), COLUMNS as usize);
  assert_eq!(c, vec!["T", "A One B Two", "S", "T\nA One B Two\nS"]);
}

#[test]
fn query_columns_join_each_bucket() {
  let q = Query::parse("ti:graph au:\"Ada L\" abs:flows neural nets");
  assert_eq!(query_columns(&q), vec!["graph", "Ada L", "flows", "neural nets"]);
  assert_eq!(query_columns(&Query::parse("")), vec!["", "", "", ""]);
}
