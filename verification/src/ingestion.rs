//! What a source worker reports to the event loop: the message sequence
//! for a finished fetch, a failed one, and one whose thread panicked.

use vstd::prelude::*;

use crate::messages::FetchMessage;
use crate::models::FeedItem;
use crate::text::to_owned_string;

verus! {

/// The messages of a source's fetch outcome: its items then its
/// completion on success, its error on failure.
pub open spec fn source_messages_spec(name: Seq<char>, outcome: Result<Vec<FeedItem>, String>, r: Seq<FetchMessage>) -> bool {
    match outcome {
        Ok(items) => r.len() == 2 && (r[0] matches FetchMessage::Items(v) && v@ == items@) && (
        r[1] matches FetchMessage::SourceComplete(n) && n@ == name),
        Err(e) => r.len() == 1 && (r[0] matches FetchMessage::SourceError(n, m) && n@ == name && m@
            == e@),
    }
}

/// The messages a source worker sends for its fetch outcome, in order.
pub fn source_messages(name: &str, outcome: Result<Vec<FeedItem>, String>) -> (r: Vec<FetchMessage>)
    ensures
        source_messages_spec(name@, outcome, r@),
{
    match outcome {
        Ok(items) => vec![FetchMessage::Items(items), FetchMessage::SourceComplete(to_owned_string(name))],
        Err(e) => vec![FetchMessage::SourceError(to_owned_string(name), e)],
    }
}

/// The messages for a source whose worker panicked with message `msg`:
/// an error naming the panic, then the completion that clears the
/// loading spinner.
pub fn panic_messages(name: &str, msg: &str) -> (r: Vec<FetchMessage>)
    ensures
        r@.len() == 2,
        r@[0] matches FetchMessage::SourceError(n, m) && n@ == name@ && m@ == "source thread panicked: "@
            + msg@,
        r@[1] matches FetchMessage::SourceComplete(n) && n@ == name@,
{
    let mut m = to_owned_string("source thread panicked: ");
    m.append(msg);
    vec![FetchMessage::SourceError(to_owned_string(name), m), FetchMessage::SourceComplete(to_owned_string(name))]
}

} // verus!
