//! The authoritative in-memory application model: the item corpus with its
//! dedup indices, and the workflow state persisted per URL.

use vstd::prelude::*;

use crate::collections::StrMap;
use crate::item_store::ItemStore;
use crate::models::{FeedItem, WorkflowState};
use crate::state::discovery::DiscoveryModel;

verus! {

/// Pure state that the rest of the app reads, mutates and queries.
pub struct Workspace {
    /// Item corpus plus its URL / arXiv-id indices.
    pub items_store: ItemStore,
    /// Workflow state per URL, persisted across runs.
    pub persisted_states: StrMap<WorkflowState>,
}

impl Workspace {
    pub open spec fn wf(&self) -> bool {
        self.items_store.wf() && self.persisted_states.wf()
    }
}

impl Default for Workspace {
    fn default() -> (w: Self)
        ensures
            w.wf(),
            w.items_store@ == Seq::<FeedItem>::empty(),
            w.persisted_states@ == Map::<Seq<char>, WorkflowState>::empty(),
    {
        Workspace { items_store: ItemStore::new(), persisted_states: StrMap::new() }
    }
}

/// The item `index` maps `key` to among `items`, when it maps it to a
/// position that holds one.
pub open spec fn indexed_item(index: Map<Seq<char>, usize>, items: Seq<FeedItem>, key: Seq<char>) -> Option<
    FeedItem,
> {
    if index.dom().contains(key) && (index[key] as int) < items.len() {
        Some(items[index[key] as int])
    } else {
        None
    }
}

/// The item with URL `url`: the corpus first, then the discoveries.
pub fn find_item_by_url<'a>(workspace: &'a Workspace, discovery: &'a DiscoveryModel, url: &str) -> (r:
    Option<&'a FeedItem>)
    requires
        workspace.wf(),
        discovery.url_index.wf(),
    ensures
        r == (if workspace.items_store.url_map().dom().contains(url@) {
            Some(&workspace.items_store@[workspace.items_store.url_map()[url@] as int])
        } else {
            match indexed_item(discovery.url_index@, discovery.items@, url@) {
                Some(it) => Some(&it),
                None => None,
            }
        }),
{
    match workspace.items_store.find_by_url(url) {
        Some(it) => Some(it),
        None => match discovery.url_index.get(url) {
            Some(i) => {
                if *i < discovery.items.len() {
                    Some(&discovery.items[*i])
                } else {
                    None
                }
            },
            None => None,
        },
    }
}

/// The item with arXiv id `aid`: the corpus first, then the discoveries.
pub fn find_item_by_arxiv_id<'a>(
    workspace: &'a Workspace,
    discovery: &'a DiscoveryModel,
    aid: &str,
) -> (r: Option<&'a FeedItem>)
    requires
        workspace.wf(),
        discovery.arxiv_id_index.wf(),
    ensures
        r == (if workspace.items_store.arxiv_map().dom().contains(aid@) {
            Some(&workspace.items_store@[workspace.items_store.arxiv_map()[aid@] as int])
        } else {
            match indexed_item(discovery.arxiv_id_index@, discovery.items@, aid@) {
                Some(it) => Some(&it),
                None => None,
            }
        }),
{
    match workspace.items_store.find_by_arxiv_id(aid) {
        Some(it) => Some(it),
        None => match discovery.arxiv_id_index.get(aid) {
            Some(i) => {
                if *i < discovery.items.len() {
                    Some(&discovery.items[*i])
                } else {
                    None
                }
            },
            None => None,
        },
    }
}

} // verus!
