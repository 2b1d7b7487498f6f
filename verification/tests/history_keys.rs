use trench::feed::FeedModel;
use trench::feed_keys::{FeedKey, HistoryAction};
use trench::history::{filtered_history_for, HistoryEntry, HistoryKind};

fn entry(kind: HistoryKind, key: &str, title: &str) -> HistoryEntry {
  HistoryEntry {
    kind,
    key: key.to_string(),
    title: title.to_string(),
    title_lower: title.to_lowercase(),
    source: "arxiv".to_string(),
    paper_meta: None,
  }
}

fn log() -> Vec<HistoryEntry> {
  vec![
    entry(HistoryKind::Paper, "https://a", "A"),
    entry(HistoryKind::Query, "diffusion", "diffusion"),
    entry(HistoryKind::Paper, "https://b", "B"),
    entry(HistoryKind::Paper, "https://a", "A again"),
  ]
}

#[test]
fn ctrl_d_deletes_every_entry_of_the_selected_key_and_clamps_the_cursor() {
  let mut f = FeedModel::default();
  let mut h = log();
  let visible = vec![0, 1, 2, 3];
  f.history_list.set_count(4);
  f.history_list.set_selected(3);
  let a = f.history_entry_key(&mut h, &visible, FeedKey::Char('d'), true);
  assert!(matches!(a, HistoryAction::Deleted));
  let keys: Vec<&str> = h.iter().map(|e| e.key.as_str()).collect();
  assert_eq!(keys, vec!["diffusion", "https://b"]);
  assert_eq!(f.history_list.selected(), 1);
  // Plain `d` is not a History key.
  let a = f.history_entry_key(&mut h, &[0, 1], FeedKey::Char('d'), false);
  assert!(matches!(a, HistoryAction::NotHandled));
}

#[test]
fn o_and_enter_act_on_the_entry_under_the_cursor() {
  let mut f = FeedModel::default();
  let mut h = log();
  let visible = vec![2, 1];
  f.history_list.set_count(2);
  match f.history_entry_key(&mut h, &visible, FeedKey::Char('o'), false) {
    HistoryAction::OpenInBrowser(u, t) => {
      assert_eq!(u, "https://b");
      assert_eq!(t, "B");
    }
    _ => panic!("expected browser open"),
  }
  assert!(matches!(f.history_entry_key(&mut h, &visible, FeedKey::Enter, false), HistoryAction::OpenPaper(2)));
  f.history_list.set_selected(1);
  assert!(matches!(f.history_entry_key(&mut h, &visible, FeedKey::Char('o'), false), HistoryAction::Nothing));
  match f.history_entry_key(&mut h, &visible, FeedKey::Enter, false) {
    HistoryAction::RerunQuery(q) => assert_eq!(q, "diffusion"),
    _ => panic!("expected query rerun"),
  }
  assert!(matches!(f.history_entry_key(&mut h, &[], FeedKey::Enter, false), HistoryAction::Nothing));
  assert_eq!(h.len(), 4);
}

#[test]
fn history_list_follows_filter_query_and_sources() {

  let mut f = FeedModel::default();
  let h = log();
  assert_eq!(filtered_history_for(&h, &f, &[true, true, false, true]), vec![0, 1, 3]);
  f.search_query_lower = "again".to_string();
  assert_eq!(filtered_history_for(&h, &f, &[true; 4]), vec![3]);
  f.search_query_lower = String::new();
  f.active_filters.sources.insert("hf".to_string());
  assert!(filtered_history_for(&h, &f, &[true; 4]).is_empty());
}
