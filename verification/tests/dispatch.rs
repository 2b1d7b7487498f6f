use trench::dispatch::{dispatch_key, DispatchContext, KeyRoute};
use trench::feed_keys::FeedKey;
use trench::state::simple::{HelpState, QuitPopupKind, QuitPopupState, TagPickerState, ViewFlags};
use trench::state::timing::LeaderState;

struct Ui {
  tag: TagPickerState,
  quit: QuitPopupState,
  flags: ViewFlags,
  help: HelpState,
  leader: LeaderState,
}

fn ui() -> Ui {
  Ui {
    tag: TagPickerState::default(),
    quit: QuitPopupState::default(),
    flags: ViewFlags::default(),
    help: HelpState::default(),
    leader: LeaderState::default(),
  }
}

fn ctx() -> DispatchContext {
  DispatchContext { reader_popup_active: false, text_entry: false, reader_focused: false, bottom_pane_active: false }
}

fn route(u: &mut Ui, key: FeedKey, ctrl: bool, elapsed: u128, c: &DispatchContext) -> KeyRoute {
  dispatch_key(key, ctrl, &u.tag, &mut u.quit, &mut u.flags, &mut u.help, &mut u.leader, elapsed, c)
}

#[test]
fn modal_layers_intercept_in_order() {
  let mut u = ui();
  u.tag.active = true;
  u.quit.active = true;
  assert_eq!(route(&mut u, FeedKey::Char('q'), false, 0, &ctx()), KeyRoute::TagPicker);
  assert!(u.quit.active);
  u.tag.active = false;
  u.quit.kind = QuitPopupKind::LeaveReader;
  assert_eq!(route(&mut u, FeedKey::Char('x'), false, 0, &ctx()), KeyRoute::Swallowed);
  assert_eq!(route(&mut u, FeedKey::Enter, false, 0, &ctx()), KeyRoute::QuitConfirmed(QuitPopupKind::LeaveReader));
  assert!(!u.quit.active);
  u.flags.abstract_popup_active = true;
  assert_eq!(route(&mut u, FeedKey::Char('j'), false, 0, &ctx()), KeyRoute::Swallowed);
  assert_eq!(route(&mut u, FeedKey::Char(' '), false, 0, &ctx()), KeyRoute::AbstractDismissed);
  assert!(!u.flags.abstract_popup_active);
  u.flags.tab_window_prompt_active = true;
  assert_eq!(route(&mut u, FeedKey::Char('2'), false, 0, &ctx()), KeyRoute::NewTab(true));
  assert!(!u.flags.tab_window_prompt_active);
  let mut c = ctx();
  c.reader_popup_active = true;
  assert_eq!(route(&mut u, FeedKey::Esc, false, 0, &c), KeyRoute::ReaderPopupClose);
}

#[test]
fn question_mark_opens_help_unless_typing() {
  let mut u = ui();
  u.help.section = 3;
  u.leader.activate();
  assert_eq!(route(&mut u, FeedKey::Char('?'), false, 0, &ctx()), KeyRoute::AppHelp);
  assert!(u.help.active && u.help.section == 0 && u.help.scroll == 0);
  assert!(!u.leader.is_active());
  assert_eq!(route(&mut u, FeedKey::Char('j'), false, 0, &ctx()), KeyRoute::HelpOverlay);
  let mut u = ui();
  let mut c = ctx();
  c.text_entry = true;
  assert_eq!(route(&mut u, FeedKey::Char('?'), false, 0, &c), KeyRoute::Panes);
  assert!(!u.help.active);
  c.text_entry = false;
  c.reader_focused = true;
  assert_eq!(route(&mut u, FeedKey::Char('?'), false, 0, &c), KeyRoute::ReaderHelp);
}

#[test]
fn leader_arms_on_ctrl_t_and_lapses_after_its_timeout() {
  let mut u = ui();
  assert_eq!(route(&mut u, FeedKey::Char('t'), true, 0, &ctx()), KeyRoute::LeaderArmed);
  assert!(u.leader.is_active());
  assert_eq!(route(&mut u, FeedKey::Char('n'), false, 10, &ctx()), KeyRoute::Leader);
  assert_eq!(route(&mut u, FeedKey::Char('n'), false, 5000, &ctx()), KeyRoute::Panes);
  assert!(!u.leader.is_active());
  let mut c = ctx();
  c.bottom_pane_active = true;
  assert_eq!(route(&mut u, FeedKey::Char('j'), false, 0, &c), KeyRoute::BottomPane);
}
