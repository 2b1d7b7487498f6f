//! Moving the files of the legacy config directory into the current one:
//! which entries move, and what to do with each.

use vstd::prelude::*;

verus! {

/// The entries of the legacy config directory that are carried over.
pub open spec fn legacy_entries_spec() -> Seq<&'static str> {
    seq![
        "config.json",
        "state.json",
        "cache.json",
        "enrichment_cache.json",
        "discovery_cache.json",
        "trench.log",
        "hf_repo_cache.json",
        "chats",
        "notes",
    ]
}

/// The legacy entries, in migration order.
pub fn legacy_config_entries() -> (r: Vec<&'static str>)
    ensures
        r@ == legacy_entries_spec(),
{
    let r = vec![
        "config.json",
        "state.json",
        "cache.json",
        "enrichment_cache.json",
        "discovery_cache.json",
        "trench.log",
        "hf_repo_cache.json",
        "chats",
        "notes",
    ];
    assert(r@ =~= legacy_entries_spec());
    r
}

/// What to do with one legacy entry.
#[derive(Clone, Copy, Debug, PartialEq, Eq, Structural)]
pub enum MigrationStep {
    /// Nothing to move, or the new location is already taken.
    Skip,
    /// The entry is a symbolic link: never followed or moved.
    RefuseSymlink,
    /// Rename the entry into the new directory.
    Move,
}

/// The step for one entry, given what the file system shows.
pub open spec fn migration_step_spec(old_exists: bool, new_exists: bool, old_is_symlink: bool) -> MigrationStep {
    if !old_exists || new_exists {
        MigrationStep::Skip
    } else if old_is_symlink {
        MigrationStep::RefuseSymlink
    } else {
        MigrationStep::Move
    }
}

/// Decide the step for one legacy entry: skip it when there is nothing to
/// move or its new location is taken, refuse a symbolic link (a planted
/// link must not redirect the rename), move it otherwise.
pub fn migration_step(old_exists: bool, new_exists: bool, old_is_symlink: bool) -> (s: MigrationStep)
    ensures
        s == migration_step_spec(old_exists, new_exists, old_is_symlink),
{
    if !old_exists || new_exists {
        MigrationStep::Skip
    } else if old_is_symlink {
        MigrationStep::RefuseSymlink
    } else {
        MigrationStep::Move
    }
}

/// Law: an entry is only ever moved when it exists, is not a symbolic
/// link, and would not overwrite anything.
pub proof fn lemma_move_is_safe(old_exists: bool, new_exists: bool, old_is_symlink: bool)
    requires
        migration_step_spec(old_exists, new_exists, old_is_symlink) == MigrationStep::Move,
    ensures
        old_exists && !new_exists && !old_is_symlink,
{
}

} // verus!
