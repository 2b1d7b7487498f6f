use trench::feed::{gesture_state, FeedModel, SearchBarKey};
use trench::fixtures::variant;
use trench::models::WorkflowState;
use trench::workspace::Workspace;
use trench::state::discovery::DiscoveryModel;

#[test]
fn search_query_keeps_lowercase_mirror() {
  let mut m = FeedModel::default();
  m.push_search_char('A');
  m.push_search_char('b');
  m.push_search_char('Ä');
  assert_eq!(m.search_query, "AbÄ");
  assert_eq!(m.search_query_lower, "abä");
  m.pop_search_char();
  assert_eq!(m.search_query, "Ab");
  assert_eq!(m.search_query_lower, "ab");
  m.clear_search_query();
  assert!(m.search_query.is_empty() && m.search_query_lower.is_empty());
  m.pop_search_char();
  assert!(m.search_query.is_empty());
}

#[test]
fn discovery_query_keeps_lowercase_mirror() {
  let mut d = DiscoveryModel::default();
  d.push_discovery_char('Q');
  assert_eq!((d.query.as_str(), d.query_lower.as_str()), ("Q", "q"));
  d.set_discovery_query("/Topic X".to_string());
  assert_eq!(d.query_lower, "/topic x");
  d.pop_discovery_char();
  assert_eq!(d.query, "/Topic ");
  d.clear_discovery_query();
  assert!(d.query.is_empty() && d.query_lower.is_empty());
}

#[test]
fn search_bar_keys() {
  let mut m = FeedModel::default();
  m.enter_search();
  assert!(m.search_bar_key(SearchBarKey::Char('X')));
  assert_eq!(m.search_query_lower, "x");
  assert!(m.search_bar_key(SearchBarKey::Backspace));
  assert!(m.search_query.is_empty());
  assert!(!m.search_bar_key(SearchBarKey::Other));
  m.search_bar_key(SearchBarKey::Char('q'));
  assert!(!m.search_bar_key(SearchBarKey::Enter));
  assert!(!m.search_active);
  assert_eq!(m.search_query, "q");
  m.enter_search();
  assert!(m.search_bar_key(SearchBarKey::Esc));
  assert!(!m.search_active && m.search_query.is_empty());
}

#[test]
fn workflow_gesture_keys() {
  assert_eq!(gesture_state('w'), Some(WorkflowState::Queued));
  assert_eq!(gesture_state('r'), Some(WorkflowState::DeepRead));
  assert_eq!(gesture_state('x'), Some(WorkflowState::Archived));
  assert_eq!(gesture_state('i'), Some(WorkflowState::Inbox));
  assert_eq!(gesture_state('q'), None);
  let mut ws = Workspace::default();
  ws.items_store.push(variant(0));
  let mut d = DiscoveryModel::default();
  let mut m = FeedModel::default();
  m.inbox_list.set_count(1);
  assert!(m.handle_workflow_gesture('z', &[0], &mut ws, &mut d).is_none());
  let effects = m.handle_workflow_gesture('x', &[0], &mut ws, &mut d).unwrap();
  assert_eq!(effects.len(), 1);
  assert_eq!(ws.items_store.get(0).unwrap().workflow_state, WorkflowState::Archived);
}
