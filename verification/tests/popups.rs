use trench::state::simple::{ChatState, QuitPopupKind, QuitPopupState, TagPickerState};

#[test]
fn quit_popup_prefers_leaving_reader_then_progress_then_chat() {
  let mut q = QuitPopupState::default();
  q.show_quit_popup(true, true, true);
  assert!(q.active);
  assert_eq!(q.kind, QuitPopupKind::LeaveReader);

  let mut q = QuitPopupState::default();
  q.show_quit_popup(false, true, true);
  assert_eq!(q.kind, QuitPopupKind::QuitWithProgress);

  let mut q = QuitPopupState::default();
  q.show_quit_popup(false, false, true);
  assert_eq!(q.kind, QuitPopupKind::QuitWithChat);

  let mut q = QuitPopupState::default();
  q.show_quit_popup(false, false, false);
  assert!(q.active);
  assert_eq!(q.kind, QuitPopupKind::QuitApp);
}

#[test]
fn chat_state_starts_hidden() {
  let c = ChatState::default();
  assert!(!c.active && !c.fullscreen && !c.at_top);
}

#[test]
fn tag_picker_open_ignores_empty_targets_and_close_resets() {
  let mut p = TagPickerState::default();
  p.open_tag_picker(Vec::new());
  assert!(!p.active);

  p.input = "draft".to_string();
  p.selected = 3;
  p.open_tag_picker(vec!["https://a".to_string(), "https://b".to_string()]);
  assert!(p.active);
  assert!(p.input.is_empty());
  assert_eq!(p.selected, 0);
  assert_eq!(p.target_urls, vec!["https://a".to_string(), "https://b".to_string()]);

  p.close_tag_picker();
  assert!(!p.active);
  assert!(p.target_urls.is_empty());
  assert_eq!(p.selected, 0);
}
