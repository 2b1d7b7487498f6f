use trench::state::browse::{BrowseFocus, BrowseModel, RailNode};
use trench::taxonomy::taxonomy;


#[test]
fn default_starts_at_groups_level() {
  let m = BrowseModel::new();
  assert!(m.rail_path.is_empty());
  assert_eq!(m.focus, BrowseFocus::Rail);
  assert_eq!(m.rail_cursor.selected(), 0);
  assert_eq!(
    m.rail_cursor.count(),
    trench::taxonomy::group_count()
  );
}

#[test]
fn drill_into_group_resets_cursor_and_updates_count() {
  let mut m = BrowseModel::new();
  // Pretend the cursor was somewhere down the Groups list.
  m.rail_cursor.set_selected(3);
  m.drill_into(RailNode::Group("cs"));
  assert_eq!(m.rail_path.len(), 1);
  assert_eq!(m.rail_cursor.selected(), 0, "cursor resets on drill");
  let expected =
    taxonomy().iter().find(|g| g.id == "cs").unwrap().archives.len();
  assert_eq!(m.rail_cursor.count(), expected);
}

#[test]
fn drill_back_pops_one_level_and_restores_root_count() {
  let mut m = BrowseModel::new();
  m.drill_into(RailNode::Group("cs"));
  m.drill_back();
  assert!(m.rail_path.is_empty());
  assert_eq!(
    m.rail_cursor.count(),
    trench::taxonomy::group_count()
  );
}

#[test]
fn drill_into_archive_lands_at_categories_level() {
  let mut m = BrowseModel::new();
  m.drill_into(RailNode::Group("cs"));
  m.drill_into(RailNode::Archive("cs", "cs"));
  assert_eq!(m.rail_path.len(), 2);
  // cs archive has 40 categories — cursor count should match.
  let expected = taxonomy()
    .iter()
    .find(|g| g.id == "cs")
    .unwrap()
    .archives
    .iter()
    .find(|a| a.id == "cs")
    .unwrap()
    .categories
    .len();
  assert_eq!(m.rail_cursor.count(), expected);
}

#[test]
fn third_drill_is_noop() {
  let mut m = BrowseModel::new();
  m.drill_into(RailNode::Group("cs"));
  m.drill_into(RailNode::Archive("cs", "cs"));
  let depth_before = m.rail_path.len();
  m.drill_into(RailNode::Group("math"));
  assert_eq!(m.rail_path.len(), depth_before, "no drill past Categories");
}

#[test]
fn rail_selected_group_only_returns_at_root() {
  let mut m = BrowseModel::new();
  assert!(m.rail_selected_group().is_some());
  m.drill_into(RailNode::Group("cs"));
  assert!(
    m.rail_selected_group().is_none(),
    "no group selected once drilled"
  );
}

#[test]
fn rail_selected_archive_only_returns_at_depth_one() {
  let mut m = BrowseModel::new();
  assert!(m.rail_selected_archive().is_none());
  m.drill_into(RailNode::Group("cs"));
  assert!(m.rail_selected_archive().is_some());
  m.drill_into(RailNode::Archive("cs", "cs"));
  assert!(m.rail_selected_archive().is_none());
}

#[test]
fn rail_selected_category_only_returns_at_depth_two() {
  let mut m = BrowseModel::new();
  assert!(m.rail_selected_category().is_none());
  m.drill_into(RailNode::Group("cs"));
  assert!(m.rail_selected_category().is_none());
  m.drill_into(RailNode::Archive("cs", "cs"));
  assert!(m.rail_selected_category().is_some());
}

#[test]
fn loaded_state_starts_empty() {
  let m = BrowseModel::new();
  assert!(m.loaded_categories.is_empty());
  assert!(m.inflight.is_empty());
}
