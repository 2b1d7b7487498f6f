use trench::config_migration::{legacy_config_entries, migration_step, MigrationStep};

#[test]
fn legacy_entries_in_order() {
  assert_eq!(
    legacy_config_entries(),
    vec![
      "config.json", "state.json", "cache.json", "enrichment_cache.json", "discovery_cache.json",
      "trench.log", "hf_repo_cache.json", "chats", "notes",
    ]
  );
}

#[test]
fn only_present_plain_entries_with_free_targets_move() {
  assert_eq!(migration_step(true, false, false), MigrationStep::Move);
  assert_eq!(migration_step(true, false, true), MigrationStep::RefuseSymlink);
  assert_eq!(migration_step(true, true, false), MigrationStep::Skip);
  assert_eq!(migration_step(false, false, false), MigrationStep::Skip);
  assert_eq!(migration_step(true, true, true), MigrationStep::Skip);
}
