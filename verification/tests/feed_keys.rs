use trench::feed::FeedModel;
use trench::feed_keys::{FeedAction, FeedKey, FeedKeyContext, NarrowAction};
use trench::primitives::ScrollState;
use trench::fixtures::variant;
use trench::models::WorkflowState;
use trench::state::discovery::DiscoveryModel;
use trench::state::feed::FeedTab;
use trench::state::timing::DebounceState;
use trench::workspace::Workspace;

fn ctx() -> FeedKeyContext {
  FeedKeyContext { feed_focused: true, split_active: false, refreshing: false, fulltext_loading: false }
}

fn setup() -> (FeedModel, Workspace, DiscoveryModel, DebounceState) {
  let mut ws = Workspace::default();
  for i in [0usize, 4, 8] {
    let mut it = variant(i);
    it.github_owner = if i == 4 { Some("octo".to_string()) } else { None };
    it.github_repo_name = if i == 4 { Some("cat".to_string()) } else { None };
    ws.items_store.push(it);
  }
  (FeedModel::default(), ws, DiscoveryModel::default(), DebounceState::default())
}

fn key(m: &mut FeedModel, k: FeedKey, c: &FeedKeyContext, ws: &mut Workspace, d: &mut DiscoveryModel, db: &mut DebounceState) -> FeedAction {
  let visible = [0usize, 1, 2];
  m.feed_view_key(k, c, &visible, 3, &["arxiv".to_string()], &[], ws, d, db)
}

#[test]
fn pane_keys_move_and_ask() {
  let (mut m, mut ws, mut d, mut db) = setup();
  let c = ctx();
  assert!(matches!(key(&mut m, FeedKey::Char('j'), &c, &mut ws, &mut d, &mut db), FeedAction::CursorMoved));
  assert_eq!(m.inbox_list.selected(), 1);
  assert!(matches!(key(&mut m, FeedKey::Char('G'), &c, &mut ws, &mut d, &mut db), FeedAction::CursorMoved));
  assert_eq!(m.inbox_list.selected(), 2);
  assert!(matches!(key(&mut m, FeedKey::Char('g'), &c, &mut ws, &mut d, &mut db), FeedAction::CursorMoved));
  assert_eq!(m.inbox_list.selected(), 0);
  match key(&mut m, FeedKey::Enter, &c, &mut ws, &mut d, &mut db) {
    FeedAction::OpenPaper(u) => assert_eq!(u, variant(0).url),
    _ => panic!("expected open paper"),
  }
  assert!(matches!(key(&mut m, FeedKey::Char('v'), &c, &mut ws, &mut d, &mut db), FeedAction::NoRepoLinked));
  m.inbox_list.set_selected(1);
  match key(&mut m, FeedKey::Char('v'), &c, &mut ws, &mut d, &mut db) {
    FeedAction::OpenRepo(o, r) => assert_eq!((o.as_str(), r.as_str()), ("octo", "cat")),
    _ => panic!("expected repo"),
  }
  match key(&mut m, FeedKey::Char('o'), &c, &mut ws, &mut d, &mut db) {
    FeedAction::OpenInBrowser(u, t) => {
      assert_eq!(u, variant(4).url);
      assert_eq!(t, variant(4).title);
    }
    _ => panic!("expected browser"),
  }
  assert!(matches!(key(&mut m, FeedKey::Char(' '), &c, &mut ws, &mut d, &mut db), FeedAction::OpenAbstract));
  assert!(matches!(key(&mut m, FeedKey::Char('q'), &c, &mut ws, &mut d, &mut db), FeedAction::ShowQuitPopup));
  assert!(matches!(key(&mut m, FeedKey::Esc, &c, &mut ws, &mut d, &mut db), FeedAction::ClearMessages));
  assert!(matches!(key(&mut m, FeedKey::Char('R'), &c, &mut ws, &mut d, &mut db), FeedAction::Refresh));
  let busy = FeedKeyContext { refreshing: true, ..ctx() };
  assert!(matches!(key(&mut m, FeedKey::Char('R'), &busy, &mut ws, &mut d, &mut db), FeedAction::AlreadyRefreshing));
  match key(&mut m, FeedKey::Char('w'), &c, &mut ws, &mut d, &mut db) {
    FeedAction::WorkflowChanged(e) => assert_eq!(e.len(), 1),
    _ => panic!("expected workflow change"),
  }
  assert_eq!(ws.items_store.get(1).unwrap().workflow_state, WorkflowState::Queued);
  assert!(matches!(key(&mut m, FeedKey::Tab, &c, &mut ws, &mut d, &mut db), FeedAction::ResetPosition));
  assert!(m.feed_tab == FeedTab::Browse);
  let unfocused = FeedKeyContext { feed_focused: false, ..ctx() };
  assert!(matches!(key(&mut m, FeedKey::Tab, &unfocused, &mut ws, &mut d, &mut db), FeedAction::Nothing));
  assert!(m.feed_tab == FeedTab::Browse);
}

#[test]
fn search_and_filter_modes_take_keys_first() {
  let (mut m, mut ws, mut d, mut db) = setup();
  let c = ctx();
  assert!(matches!(key(&mut m, FeedKey::Char('/'), &c, &mut ws, &mut d, &mut db), FeedAction::ResetPosition));
  assert!(m.search_active);
  assert!(matches!(key(&mut m, FeedKey::Char('j'), &c, &mut ws, &mut d, &mut db), FeedAction::ResetPosition));
  assert_eq!(m.search_query, "j");
  assert!(matches!(key(&mut m, FeedKey::Enter, &c, &mut ws, &mut d, &mut db), FeedAction::Nothing));
  assert!(!m.search_active);
  assert!(matches!(key(&mut m, FeedKey::Char('f'), &c, &mut ws, &mut d, &mut db), FeedAction::Nothing));
  assert!(m.filter_focus);
  assert!(matches!(key(&mut m, FeedKey::Char(' '), &c, &mut ws, &mut d, &mut db), FeedAction::ResetPosition));
  assert!(m.active_filters.sources.contains("arxiv"));
  assert!(matches!(key(&mut m, FeedKey::Esc, &c, &mut ws, &mut d, &mut db), FeedAction::ResetPosition));
  assert!(!m.filter_focus && m.active_filters.is_empty());
}

#[test]
fn discoveries_tab_types_into_agent_bar() {
  let (mut m, mut ws, mut d, mut db) = setup();
  m.feed_tab = FeedTab::Discoveries;
  let c = ctx();
  assert!(matches!(key(&mut m, FeedKey::Char('A'), &c, &mut ws, &mut d, &mut db), FeedAction::Nothing));
  assert!(d.search_focused);
  assert_eq!(d.query_lower, "a");
}

#[test]
fn narrow_feed_keys() {
  let (mut m, ws, mut d, mut db) = setup();
  let c = ctx();
  let visible = [0usize, 1, 2];
  let mut open = false;
  let mut scroll = ScrollState::new();
  scroll.set_max(5);
  let mut k = |m: &mut FeedModel, d: &mut DiscoveryModel, key: FeedKey, open: &mut bool, scroll: &mut ScrollState, db: &mut DebounceState| {
    m.narrow_feed_key(key, &c, &visible, 3, &ws, d, open, scroll, db)
  };
  assert!(matches!(k(&mut m, &mut d, FeedKey::Char('d'), &mut open, &mut scroll, &mut db), NarrowAction::Nothing));
  assert!(open);
  assert!(matches!(k(&mut m, &mut d, FeedKey::Char('j'), &mut open, &mut scroll, &mut db), NarrowAction::Nothing));
  assert_eq!(scroll.offset(), 1);
  assert_eq!(m.inbox_list.selected(), 0);
  assert!(matches!(k(&mut m, &mut d, FeedKey::Esc, &mut open, &mut scroll, &mut db), NarrowAction::Nothing));
  assert!(!open);
  assert!(matches!(k(&mut m, &mut d, FeedKey::Down, &mut open, &mut scroll, &mut db), NarrowAction::CursorMoved));
  assert_eq!(m.inbox_list.selected(), 1);
  assert_eq!(scroll.offset(), 0);
  match k(&mut m, &mut d, FeedKey::Enter, &mut open, &mut scroll, &mut db) {
    NarrowAction::OpenPaper(u) => assert_eq!(u, variant(4).url),
    _ => panic!("expected open"),
  }
  assert!(matches!(k(&mut m, &mut d, FeedKey::Char('q'), &mut open, &mut scroll, &mut db), NarrowAction::LeaveSplit));
}

#[test]
fn history_cursor_keys() {
  let mut m = FeedModel::default();
  assert!(m.history_nav_key(FeedKey::Char('j'), 0));
  assert_eq!(m.history_list.selected(), 0);
  assert!(m.history_nav_key(FeedKey::Char('G'), 4));
  assert_eq!(m.history_list.selected(), 3);
  assert!(m.history_nav_key(FeedKey::Down, 4));
  assert_eq!(m.history_list.selected(), 3);
  assert!(m.history_nav_key(FeedKey::Char('k'), 4));
  assert_eq!(m.history_list.selected(), 2);
  assert!(m.history_nav_key(FeedKey::Char('g'), 4));
  assert_eq!(m.history_list.selected(), 0);
  assert!(!m.history_nav_key(FeedKey::Char('x'), 4));
}
