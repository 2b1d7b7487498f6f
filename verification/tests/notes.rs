use trench::state::notes::{
  CloseTabOutcome, FocusedReader, NotesInstanceModel, NotesMode, NotesPaneModel, NotesTab,
};


#[test]
fn instance_default_is_empty_library() {
  let m = NotesInstanceModel::default();
  assert!(m.tabs.is_empty());
  assert_eq!(m.active_tab, 0);
  assert_eq!(m.mode, NotesMode::Library);
  assert!(m.context.is_none());
}

#[test]
fn pane_default_has_no_backend_no_secondary_nothing_visible() {
  let p = NotesPaneModel::default();
  assert!(p.app.is_none(), "backend lazy-loads, default is None");
  assert!(p.secondary.is_none(), "secondary is Option, defaults to None");
  assert!(!p.primary_visible);
  assert!(!p.secondary_visible);
  // Primary instance is always allocated even on default.
  assert!(p.primary.tabs.is_empty());
}

#[test]
fn secondary_visible_meaningless_without_secondary() {
  // Invariant: secondary_visible only matters when secondary.is_some().
  // The default state shows the degenerate case — visibility false
  // but no instance behind it.
  let p = NotesPaneModel::default();
  assert!(p.secondary.is_none() && !p.secondary_visible);
}

#[test]
fn instance_mode_can_diverge_from_default() {
  let mut m = NotesInstanceModel::default();
  m.mode = NotesMode::Capture;
  // Per-instance mode: tests that different instances can hold
  // different modes (the property that justifies S4 in ADR-003).
  let other = NotesInstanceModel::default();
  assert_ne!(m.mode, other.mode);
  assert_eq!(other.mode, NotesMode::Library);
}

// ── Gesture tests (PR 3, ADR-003 §S6) ────────────────────────────
//
// These exercise the model methods without instantiating the
// `notes::app::App` persistence backend. The synthetic tabs use
// throwaway note_ids; we don't care whether they exist in any real
// notes store — we only care about the model transitions.


fn tab(id: &str) -> NotesTab {
  NotesTab { note_id: id.to_string(), title: format!("title-{id}") }
}

fn pane_with_primary_tabs(ids: &[&str]) -> NotesPaneModel {
  let mut p = NotesPaneModel::default();
  p.primary.tabs = ids.iter().map(|id| tab(id)).collect();
  p
}

#[test]
fn next_mode_cycles_forward_through_order() {
  let mut p = NotesPaneModel::default();
  // Default instance starts at NotesMode::Library.
  assert_eq!(p.primary.mode, NotesMode::Library);
  // Cycle order is [PaperNotes, Library, Capture]; from Library
  // forward lands on Capture.
  let next = p.next_mode(FocusedReader::Primary, 1);
  assert_eq!(next, NotesMode::Capture);
  p.primary.mode = next;
  // Capture forward wraps to PaperNotes.
  assert_eq!(p.next_mode(FocusedReader::Primary, 1), NotesMode::PaperNotes);
}

#[test]
fn next_mode_cycles_backward_through_order() {
  let mut p = NotesPaneModel::default();
  // Library backward → PaperNotes (one step left in the order).
  let prev = p.next_mode(FocusedReader::Primary, -1);
  assert_eq!(prev, NotesMode::PaperNotes);
  p.primary.mode = prev;
  // PaperNotes backward wraps to Capture.
  assert_eq!(p.next_mode(FocusedReader::Primary, -1), NotesMode::Capture);
}

#[test]
fn next_mode_on_unopened_secondary_uses_default_mode() {
  let p = NotesPaneModel::default();
  // Secondary is None; next_mode falls back to the *default mode*
  // (`Library`), which sits at index 1 of the cycle. Going +1
  // lands on `Capture`. Important: this must not panic on a None
  // secondary — that was the latent risk before the Option-aware
  // accessor was in place.
  assert_eq!(p.next_mode(FocusedReader::Secondary, 1), NotesMode::Capture);
}

#[test]
fn next_tab_advances_then_saturates() {
  let mut p = pane_with_primary_tabs(&["a", "b", "c"]);
  assert_eq!(p.next_tab(FocusedReader::Primary), Some("b".into()));
  assert_eq!(p.primary.active_tab, 1);
  assert_eq!(p.next_tab(FocusedReader::Primary), Some("c".into()));
  // Saturates at last index — does not wrap.
  assert_eq!(p.next_tab(FocusedReader::Primary), Some("c".into()));
  assert_eq!(p.primary.active_tab, 2);
}

#[test]
fn prev_tab_steps_back_then_saturates_at_zero() {
  let mut p = pane_with_primary_tabs(&["a", "b", "c"]);
  p.primary.active_tab = 2;
  assert_eq!(p.prev_tab(FocusedReader::Primary), Some("b".into()));
  assert_eq!(p.prev_tab(FocusedReader::Primary), Some("a".into()));
  // saturating_sub means we sit at 0, not panic.
  assert_eq!(p.prev_tab(FocusedReader::Primary), Some("a".into()));
  assert_eq!(p.primary.active_tab, 0);
}

#[test]
fn next_and_prev_tab_no_op_on_empty() {
  let mut p = NotesPaneModel::default();
  assert_eq!(p.next_tab(FocusedReader::Primary), None);
  assert_eq!(p.prev_tab(FocusedReader::Primary), None);
  // Secondary not allocated either.
  assert_eq!(p.next_tab(FocusedReader::Secondary), None);
}

#[test]
fn close_active_tab_reports_switch_when_more_remain() {
  let mut p = pane_with_primary_tabs(&["a", "b", "c"]);
  p.primary.active_tab = 1;
  let out = p.close_active_tab(FocusedReader::Primary);
  match out {
    CloseTabOutcome::Switched(id) => assert_eq!(id, "c"),
    _ => panic!("expected Switched"),
  }
  assert_eq!(
    p.primary.tabs.iter().map(|t| t.note_id.as_str()).collect::<Vec<_>>(),
    vec!["a", "c"]
  );
  assert_eq!(p.primary.active_tab, 1);
}

#[test]
fn close_active_tab_reports_became_empty_on_last_tab() {
  let mut p = pane_with_primary_tabs(&["a"]);
  let out = p.close_active_tab(FocusedReader::Primary);
  assert!(matches!(out, CloseTabOutcome::BecameEmpty));
  assert!(p.primary.tabs.is_empty());
}

#[test]
fn close_active_tab_no_op_when_secondary_unopened() {
  let mut p = NotesPaneModel::default();
  assert!(matches!(
    p.close_active_tab(FocusedReader::Secondary),
    CloseTabOutcome::NoOp
  ));
}

#[test]
fn add_or_focus_tab_pushes_new_and_focuses_existing() {
  let mut p = NotesPaneModel::default();
  p.add_or_focus_tab(FocusedReader::Primary, tab("a"));
  p.add_or_focus_tab(FocusedReader::Primary, tab("b"));
  assert_eq!(p.primary.tabs.len(), 2);
  assert_eq!(p.primary.active_tab, 1);
  // Re-adding "a" focuses the existing tab, doesn't duplicate.
  p.add_or_focus_tab(FocusedReader::Primary, tab("a"));
  assert_eq!(p.primary.tabs.len(), 2);
  assert_eq!(p.primary.active_tab, 0);
}

#[test]
fn add_or_focus_tab_lazily_initialises_secondary() {
  let mut p = NotesPaneModel::default();
  assert!(p.secondary.is_none());
  p.add_or_focus_tab(FocusedReader::Secondary, tab("x"));
  // Invariant: secondary instance exists now; visibility unchanged
  // (still false — visibility is a separate concern per ADR-003 §S3).
  assert!(p.secondary.is_some());
  assert!(!p.secondary_visible);
  let sec = p.secondary.as_ref().unwrap();
  assert_eq!(sec.tabs.len(), 1);
  assert_eq!(sec.active_tab, 0);
}

#[test]
fn prune_tabs_drops_unknown_ids_and_clamps_active() {
  let mut p = pane_with_primary_tabs(&["a", "b", "c"]);
  p.primary.active_tab = 2;
  p.add_or_focus_tab(FocusedReader::Secondary, tab("x"));
  p.add_or_focus_tab(FocusedReader::Secondary, tab("y"));
  // Only "a" survives on primary; "y" survives on secondary.
  let kept: std::collections::HashSet<&str> =
    ["a", "y"].into_iter().collect();
  p.prune_tabs(|id| kept.contains(id));
  assert_eq!(
    p.primary.tabs.iter().map(|t| t.note_id.as_str()).collect::<Vec<_>>(),
    vec!["a"]
  );
  assert_eq!(p.primary.active_tab, 0);
  let sec = p.secondary.as_ref().unwrap();
  assert_eq!(
    sec.tabs.iter().map(|t| t.note_id.as_str()).collect::<Vec<_>>(),
    vec!["y"]
  );
  assert_eq!(sec.active_tab, 0);
}

#[test]
fn prune_tabs_handles_empty_primary_via_saturating_sub() {
  let mut p = pane_with_primary_tabs(&["a"]);
  p.prune_tabs(|_| false);
  assert!(p.primary.tabs.is_empty());
  // active_tab clamps to 0 (saturating_sub on len()=0).
  assert_eq!(p.primary.active_tab, 0);
}

#[test]
fn set_visible_and_any_visible_track_per_side_flags() {
  let mut p = NotesPaneModel::default();
  assert!(!p.any_visible());
  p.set_visible(FocusedReader::Primary, true);
  assert!(p.any_visible());
  assert!(p.primary_visible);
  p.set_visible(FocusedReader::Primary, false);
  p.set_visible(FocusedReader::Secondary, true);
  assert!(p.any_visible());
}

#[test]
fn hide_all_clears_both_flags_without_dropping_tabs() {
  let mut p = pane_with_primary_tabs(&["a", "b"]);
  p.add_or_focus_tab(FocusedReader::Secondary, tab("x"));
  p.primary_visible = true;
  p.secondary_visible = true;
  p.hide_all();
  assert!(!p.primary_visible);
  assert!(!p.secondary_visible);
  // Tabs survive visibility toggle — that's the whole point of
  // separating visibility from lifecycle (ADR-003 §S3).
  assert_eq!(p.primary.tabs.len(), 2);
  assert!(p.secondary.is_some());
}

#[test]
fn collapse_secondary_into_primary_promotes_tabs_and_visibility() {
  let mut p = pane_with_primary_tabs(&["old1", "old2"]);
  p.primary_visible = false;
  p.add_or_focus_tab(FocusedReader::Secondary, tab("new1"));
  p.add_or_focus_tab(FocusedReader::Secondary, tab("new2"));
  p.secondary.as_mut().unwrap().active_tab = 1;
  p.secondary_visible = true;
  p.collapse_secondary_into_primary();
  // Visibility followed secondary.
  assert!(p.primary_visible);
  assert!(!p.secondary_visible);
  // Tabs replaced — secondary's content is now primary's.
  assert_eq!(
    p.primary.tabs.iter().map(|t| t.note_id.as_str()).collect::<Vec<_>>(),
    vec!["new1", "new2"]
  );
  assert_eq!(p.primary.active_tab, 1);
  // Secondary unloaded.
  assert!(p.secondary.is_none());
}

#[test]
fn collapse_with_no_secondary_still_clears_flags() {
  let mut p = pane_with_primary_tabs(&["a"]);
  p.primary_visible = true;
  p.secondary_visible = true;
  // Degenerate case: secondary_visible was true without an instance
  // (invariant break). Collapse should still clear flags and not panic.
  p.collapse_secondary_into_primary();
  assert!(p.primary_visible);
  assert!(!p.secondary_visible);
  assert!(p.secondary.is_none());
  // Primary tabs untouched.
  assert_eq!(p.primary.tabs.len(), 1);
}
