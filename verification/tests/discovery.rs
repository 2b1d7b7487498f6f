use trench::fixtures::variant;
use trench::state::discovery::DiscoveryModel;

#[test]
fn indices_default_empty() {
  // Invariant: both dedup indices start empty alongside an empty items vec.
  let m = DiscoveryModel::default();
  assert!(m.url_index.is_empty());
  assert!(m.arxiv_id_index.is_empty());
}

#[test]
fn list_and_palette_are_separate_cursors() {
  // The discovery items list and the slash-command palette have
  // independent cursors. Default state confirms they start at 0.
  let m = DiscoveryModel::default();
  assert_eq!(m.list.selected(), 0);
  assert_eq!(m.palette.selected(), 0);
}

#[test]
fn default_model_is_empty_and_unfocused() {
  let m = DiscoveryModel::default();
  assert!(m.items.is_empty());
  assert!(m.query.is_empty());
  assert!(m.query_lower.is_empty());
  assert!(!m.search_focused);
  assert!(!m.loading);
  assert!(!m.force_new);
  assert!(m.status.is_empty());
}

#[test]
fn reset_discovery_items_clears_indices() {
  let mut m = DiscoveryModel::default();
  m.items = (0..6).map(variant).collect();
  for (idx, item) in m.items.iter().enumerate() {
    m.url_index.insert(item.url.clone(), idx);
  }
  assert!(!m.url_index.is_empty());

  m.reset_discovery_items();

  assert!(m.items.is_empty());
  assert!(m.url_index.is_empty());
  assert!(m.arxiv_id_index.is_empty());
}
