use std::time::Instant;
use trench::mouse::{mouse_event, MouseAction, MouseInput, MouseKind, MouseLayout, Pane};
use trench::state::timing::DebounceState;

fn layout(hovered: Option<Pane>) -> MouseLayout {
  MouseLayout {
    width: 100,
    height: 30,
    right_col_width: 39,
    hovered,
    focusable: hovered,
    visible_count: 48,
    filter_focus: false,
  }
}

fn ev(kind: MouseKind, column: u16, row: u16) -> MouseInput {
  MouseInput { kind, column, row }
}

#[test]
fn track_click_jumps_proportionally() {
  let mut d = DebounceState::default();
  let now = Instant::now();
  // Scrollbar at column 100 - 40 = 60; track rows 4..24 (20 rows).
  let a = mouse_event(ev(MouseKind::LeftDown, 60, 14), &layout(Some(Pane::Feed)), true, &mut d, now, None);
  assert_eq!(a, MouseAction::JumpTo(24));
  let a = mouse_event(ev(MouseKind::LeftDown, 60, 23), &layout(Some(Pane::Feed)), true, &mut d, now, None);
  assert_eq!(a, MouseAction::JumpTo(45));
  let a = mouse_event(ev(MouseKind::LeftDown, 10, 14), &layout(Some(Pane::Chat)), true, &mut d, now, None);
  assert_eq!(a, MouseAction::Focus(Pane::Chat));
  assert!(d.last_mouse.is_none());
}

#[test]
fn wheel_goes_through_the_cooldown_to_the_hovered_pane() {
  let mut d = DebounceState::default();
  let now = Instant::now();
  let a = mouse_event(ev(MouseKind::ScrollDown, 5, 5), &layout(Some(Pane::Notes)), true, &mut d, now, None);
  assert_eq!(a, MouseAction::NoteStep(false, true));
  assert_eq!(d.last_mouse, Some(now));
  let a = mouse_event(ev(MouseKind::ScrollUp, 5, 5), &layout(Some(Pane::Feed)), true, &mut d, now, Some(10));
  assert_eq!(a, MouseAction::Ignored);
  let a = mouse_event(ev(MouseKind::ScrollUp, 5, 5), &layout(Some(Pane::Feed)), true, &mut d, now, Some(80));
  assert_eq!(a, MouseAction::MoveCursor(false));
  let a = mouse_event(ev(MouseKind::ScrollUp, 5, 5), &layout(Some(Pane::Feed)), false, &mut d, now, None);
  assert_eq!(a, MouseAction::Ignored);
}
