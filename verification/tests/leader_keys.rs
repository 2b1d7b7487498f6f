use trench::feed_keys::FeedKey;
use trench::leader::{leader_key, LeaderAction, LeaderContext, LeaderUi};
use trench::mouse::Pane;
use trench::state::feed::NavDirection;
use trench::state::notes::FocusedReader;
use trench::state::simple::QuitPopupKind;
use trench::state::timing::LeaderState;

fn ui() -> LeaderUi {
  LeaderUi {
    focused: Pane::Reader,
    reader_side: FocusedReader::Primary,
    reader_active: true,
    split_active: false,
    dual_active: false,
    bottom_open: false,
    bottom_focused: false,
    bottom_details: false,
    bottom_selected: 0,
    chat_active: false,
    chat_fullscreen: false,
    chat_at_top: false,
    help_active: false,
    help_section: 2,
    help_scroll: 7,
    quit_active: false,
    quit_kind: QuitPopupKind::QuitApp,
    tab_prompt_active: false,
    fulltext_loading: false,
    reader_popup_active: false,
  }
}

fn ctx() -> LeaderContext {
  LeaderContext { selected_index: 5, loading: false, chat_draft: false, primary_tabs_open: true }
}

fn armed() -> LeaderState {
  let mut l = LeaderState::default();
  l.activate();
  l
}

#[test]
fn f_cycles_reader_split_dual_and_bottom_pane() {
  let mut u = ui();
  let mut l = armed();
  assert_eq!(leader_key(&mut u, &mut l, FeedKey::Char('f'), &ctx()), LeaderAction::Nothing);
  assert!(u.split_active && u.focused == Pane::Feed);
  assert!(!l.is_active());
  assert_eq!(leader_key(&mut u, &mut l, FeedKey::Char('f'), &ctx()), LeaderAction::FetchIntoSecondary);
  assert!(u.dual_active && u.focused == Pane::Reader);
  leader_key(&mut u, &mut l, FeedKey::Char('f'), &ctx());
  assert!(u.bottom_open && u.bottom_focused && u.bottom_selected == 5);
  leader_key(&mut u, &mut l, FeedKey::Char('f'), &ctx());
  assert!(!u.bottom_open && !u.bottom_focused);
}

#[test]
fn navigation_keys_keep_the_leader_armed() {
  let mut u = ui();
  let mut l = armed();
  assert_eq!(leader_key(&mut u, &mut l, FeedKey::Char('h'), &ctx()), LeaderAction::Navigate(NavDirection::Left));
  assert!(l.is_active());
  u.dual_active = true;
  u.bottom_open = true;
  u.focused = Pane::SecondaryReader;
  leader_key(&mut u, &mut l, FeedKey::Char('j'), &ctx());
  assert!(u.bottom_focused && u.reader_side == FocusedReader::Secondary);
  leader_key(&mut u, &mut l, FeedKey::Char('k'), &ctx());
  assert!(!u.bottom_focused && u.focused == Pane::SecondaryReader);
  assert!(l.is_active());
}

#[test]
fn chat_help_quit_and_tabs() {
  let mut u = ui();
  let mut l = armed();
  assert_eq!(leader_key(&mut u, &mut l, FeedKey::Char('c'), &ctx()), LeaderAction::OpenChat);
  assert!(u.chat_active && u.focused == Pane::Chat);
  leader_key(&mut u, &mut l, FeedKey::Esc, &ctx());
  assert!(!u.chat_active && u.focused == Pane::Reader);
  leader_key(&mut u, &mut l, FeedKey::Char('?'), &ctx());
  assert!(u.help_active && u.help_section == 0 && u.help_scroll == 0);
  leader_key(&mut u, &mut l, FeedKey::Char('q'), &ctx());
  assert!(u.quit_active && u.quit_kind == QuitPopupKind::LeaveReader);
  assert_eq!(leader_key(&mut u, &mut l, FeedKey::Char('t'), &ctx()), LeaderAction::OpenNewTab(true));
  u.dual_active = true;
  assert_eq!(leader_key(&mut u, &mut l, FeedKey::Char('t'), &ctx()), LeaderAction::PromptTabWindow);
  assert!(u.tab_prompt_active);
  assert_eq!(leader_key(&mut u, &mut l, FeedKey::Char('2'), &ctx()), LeaderAction::FocusPane(2));
}
