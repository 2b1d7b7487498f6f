//! Synthetic feed items for benchmarks and tests.
//!
//! [`variant`] is deterministic and index-keyed, and spreads items across
//! every platform / content type / workflow state / signal so that a
//! renderer exercises every styling branch.

use vstd::prelude::*;

use crate::models::{ContentType, FeedItem, SignalLevel, SourcePlatform, WorkflowState};
use crate::text::{decimal, decimal_string, to_owned_string, zero_pad, zero_padded_decimal};

verus! {

/// The summary text of item `idx`.
pub open spec fn variant_summary(idx: nat) -> Seq<char> {
    "Abstract for synthetic item "@ + decimal(idx)
        + ". We explore the implications of benchmark-driven design in a system with N items. Results show that the approach scales linearly with N under the conditions tested, with constant factors comparable to baseline implementations."@
}

/// Platform of item `idx`.
pub open spec fn variant_platform(idx: nat) -> SourcePlatform {
    let k = idx % 5;
    if k == 0 {
        SourcePlatform::ArXiv
    } else if k == 1 {
        SourcePlatform::HuggingFace
    } else if k == 2 {
        SourcePlatform::Blog
    } else if k == 3 {
        SourcePlatform::OpenReview
    } else {
        SourcePlatform::Rss
    }
}

/// Content type of item `idx`.
pub open spec fn variant_content(idx: nat) -> ContentType {
    let k = idx % 5;
    if k == 0 {
        ContentType::Paper
    } else if k == 1 {
        ContentType::Thread
    } else if k == 2 {
        ContentType::Article
    } else if k == 3 {
        ContentType::Repo
    } else {
        ContentType::Digest
    }
}

/// Workflow state of item `idx`.
pub open spec fn variant_state(idx: nat) -> WorkflowState {
    let k = idx % 4;
    if k == 0 {
        WorkflowState::Inbox
    } else if k == 1 {
        WorkflowState::Queued
    } else if k == 2 {
        WorkflowState::DeepRead
    } else {
        WorkflowState::Archived
    }
}

/// Signal of item `idx`.
pub open spec fn variant_signal(idx: nat) -> SignalLevel {
    let k = idx % 3;
    if k == 0 {
        SignalLevel::Primary
    } else if k == 1 {
        SignalLevel::Secondary
    } else {
        SignalLevel::Tertiary
    }
}

/// `idx` truncated to 32 bits (`idx as u32`).
pub open spec fn low32(idx: usize) -> nat {
    (idx as nat) % 0x1_0000_0000
}

/// The fields of item `idx` (its `title_lower` / `authors_lower` caches
/// stay empty).
pub open spec fn variant_spec(idx: usize, item: FeedItem) -> bool {
    let n = idx as nat;
    &&& item.id@ == "bench-"@ + decimal(n)
    &&& item.title@ == "Synthetic Paper "@ + zero_pad(decimal(n), 5)
        + ": Studies on Benchmark-Driven Foo with Bar"@
    &&& item.source_platform == variant_platform(n)
    &&& item.content_type == variant_content(n)
    &&& item.domain_tags@.len() == 2 && item.domain_tags@[0]@ == "ml"@ && item.domain_tags@[1]@
        == "nlp"@
    &&& item.signal == variant_signal(n)
    &&& item.published_at@ == "2026-05-17T00:00:00Z"@
    &&& item.authors@.len() == 3
    &&& item.authors@[0]@ == "Alice "@ + zero_pad(decimal(n % 100), 3)
    &&& item.authors@[1]@ == "Bob "@ + zero_pad(decimal((n + 7) % 100), 3)
    &&& item.authors@[2]@ == "Carol "@ + zero_pad(decimal((n + 13) % 100), 3)
    &&& item.summary_short@ == variant_summary(n)
    &&& item.workflow_state == variant_state(n)
    &&& item.url@ == "https://arxiv.org/abs/2605."@ + zero_pad(decimal(n), 5)
    &&& item.upvote_count == (low32(idx) * 3) % 50
    &&& item.github_repo is None && item.github_owner is None && item.github_repo_name is None
    &&& item.benchmark_results@.len() == 0
    &&& item.full_content is None
    &&& item.source_name@ == "bench"@
    &&& item.title_lower@.len() == 0
    &&& item.authors_lower@.len() == 0
}

fn prefixed(prefix: &str, tail: String) -> (r: String)
    ensures
        r@ == prefix@ + tail@,
{
    let mut s = to_owned_string(prefix);
    s.append(tail.as_str());
    s
}

/// Deterministic feed item keyed on `idx`.
pub fn variant(idx: usize) -> (item: FeedItem)
    requires
        idx + 13 <= usize::MAX,
        low32(idx) * 3 <= u32::MAX,
    ensures
        variant_spec(idx, item),
{
    let mut title = prefixed("Synthetic Paper ", zero_padded_decimal(idx, 5));
    title.append(": Studies on Benchmark-Driven Foo with Bar");
    let mut summary = prefixed("Abstract for synthetic item ", decimal_string(idx));
    summary.append(
        ". We explore the implications of benchmark-driven design in a system with N items. Results show that the approach scales linearly with N under the conditions tested, with constant factors comparable to baseline implementations.",
    );
    let authors = vec![
        prefixed("Alice ", zero_padded_decimal(idx % 100, 3)),
        prefixed("Bob ", zero_padded_decimal((idx + 7) % 100, 3)),
        prefixed("Carol ", zero_padded_decimal((idx + 13) % 100, 3)),
    ];
    let platform = match idx % 5 {
        0 => SourcePlatform::ArXiv,
        1 => SourcePlatform::HuggingFace,
        2 => SourcePlatform::Blog,
        3 => SourcePlatform::OpenReview,
        _ => SourcePlatform::Rss,
    };
    let content = match idx % 5 {
        0 => ContentType::Paper,
        1 => ContentType::Thread,
        2 => ContentType::Article,
        3 => ContentType::Repo,
        _ => ContentType::Digest,
    };
    let state = match idx % 4 {
        0 => WorkflowState::Inbox,
        1 => WorkflowState::Queued,
        2 => WorkflowState::DeepRead,
        _ => WorkflowState::Archived,
    };
    let signal = match idx % 3 {
        0 => SignalLevel::Primary,
        1 => SignalLevel::Secondary,
        _ => SignalLevel::Tertiary,
    };
    let low: u32 = #[verifier::truncate] (idx as u32);
    assert(low == low32(idx)) by (bit_vector)
        requires
            low == #[verifier::truncate] (idx as u32),
    ;
    let upvotes = (low * 3) % 50;
    FeedItem {
        id: prefixed("bench-", decimal_string(idx)),
        title,
        source_platform: platform,
        content_type: content,
        domain_tags: vec![to_owned_string("ml"), to_owned_string("nlp")],
        signal,
        published_at: to_owned_string("2026-05-17T00:00:00Z"),
        authors,
        summary_short: summary,
        workflow_state: state,
        url: prefixed("https://arxiv.org/abs/2605.", zero_padded_decimal(idx, 5)),
        upvote_count: upvotes,
        github_repo: None,
        github_owner: None,
        github_repo_name: None,
        benchmark_results: Vec::new(),
        full_content: None,
        source_name: to_owned_string("bench"),
        title_lower: String::new(),
        authors_lower: Vec::new(),
    }
}

} // verus!
