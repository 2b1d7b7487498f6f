//! Messages exchanged between the worker threads and the event loop, and
//! the effects the models emit for their callers to route.

use vstd::prelude::*;

use crate::models::{FeedItem, WorkflowState};

verus! {

/// Results of an on-demand Subject-Browser fetch.
pub enum BrowseMessage {
    Items { category: String, start: usize, items: Vec<FeedItem> },
    Error { category: String, error: String },
    SearchResults { query: String, items: Vec<FeedItem> },
}

/// Progress of a bulk refresh across all sources.
pub enum FetchMessage {
    Items(Vec<FeedItem>),
    EnrichedItems(Vec<FeedItem>),
    SourceComplete(String),
    SourceError(String, String),
    AllComplete,
}

/// Cache-invalidation events emitted by state mutations.
#[derive(Debug, Clone)]
pub enum Effect {
    SearchQueryChanged,
    WorkflowStateChanged { url: String, state: WorkflowState },
    HistoryMutated,
    HistoryFilterChanged,
    LibraryFilterChanged,
    FiltersChanged,
    ItemsChanged,
    SourcesEnabledChanged,
    TagsChanged,
}

/// Cross-pane requests.
#[derive(Debug, Clone, Copy, PartialEq, Eq, Structural)]
pub enum Action {
    DismissTopModal,
    OpenSettings,
}

} // verus!
