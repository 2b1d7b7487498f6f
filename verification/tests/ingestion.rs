use trench::fixtures::variant;
use trench::ingestion::{panic_messages, source_messages};
use trench::messages::FetchMessage;

#[test]
fn successful_fetch_reports_items_then_completion() {
  let msgs = source_messages("arxiv", Ok(vec![variant(0), variant(1)]));
  assert_eq!(msgs.len(), 2);
  match &msgs[0] {
    FetchMessage::Items(v) => assert_eq!(v.len(), 2),
    _ => panic!("items first"),
  }
  assert!(matches!(&msgs[1], FetchMessage::SourceComplete(n) if n == "arxiv"));
}

#[test]
fn failed_fetch_reports_only_the_error() {
  let msgs = source_messages("hf", Err("timeout".to_string()));
  assert_eq!(msgs.len(), 1);
  assert!(matches!(&msgs[0], FetchMessage::SourceError(n, e) if n == "hf" && e == "timeout"));
}

#[test]
fn panicked_source_reports_error_and_completion() {
  let msgs = panic_messages("core", "boom");
  assert_eq!(msgs.len(), 2);
  assert!(matches!(&msgs[0], FetchMessage::SourceError(n, e) if n == "core" && e == "source thread panicked: boom"));
  assert!(matches!(&msgs[1], FetchMessage::SourceComplete(n) if n == "core"));
}
