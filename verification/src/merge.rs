//! Merging fetched items into the workspace corpus, with the dedup rules:
//! an item whose URL is already known replaces it in place; an item whose
//! arXiv id is already known replaces it only when it is the canonical
//! arXiv entry (a HuggingFace mirror of a known arXiv paper is dropped);
//! any other item is appended. The workflow state persisted for a URL is
//! restored on every path, and an enrichment never resets an item's
//! workflow state.

use vstd::prelude::*;

use crate::collections::StrMap;
use crate::item_store::{
    arxiv_index_spec, at_n, newest_first_order, skip_n, sorted_newest_first, sort_items_newest_first, take_n, url_index_spec,
    ItemStore,
};
use crate::models::{arxiv_id_from_url, arxiv_id_spec, FeedItem, SourcePlatform, WorkflowState};
use crate::state::discovery::DiscoveryModel;
use crate::workspace::Workspace;

verus! {

/// Abstract state of the corpus: items and both indices.
pub struct StoreView {
    pub items: Seq<FeedItem>,
    pub urls: Map<Seq<char>, usize>,
    pub aids: Map<Seq<char>, usize>,
}

/// The abstract state of a store.
pub open spec fn store_view(s: ItemStore) -> StoreView {
    StoreView { items: s@, urls: s.url_map(), aids: s.arxiv_map() }
}

/// `v` after appending `item`.
pub open spec fn push_view(v: StoreView, item: FeedItem) -> StoreView {
    let idx = v.items.len() as usize;
    StoreView {
        items: v.items.push(item),
        urls: v.urls.insert(item.url@, idx),
        aids: match arxiv_id_spec(item.url@) {
            Some(a) => v.aids.insert(a, idx),
            None => v.aids,
        },
    }
}

/// `v` after replacing the item at `idx` by `item`.
pub open spec fn replace_view(v: StoreView, idx: usize, item: FeedItem) -> StoreView {
    let old_url = v.items[idx as int].url@;
    let m = match arxiv_id_spec(old_url) {
        Some(a) => v.aids.remove(a),
        None => v.aids,
    };
    StoreView {
        items: v.items.update(idx as int, item),
        urls: v.urls.remove(old_url).insert(item.url@, idx),
        aids: match arxiv_id_spec(item.url@) {
            Some(a) => m.insert(a, idx),
            None => m,
        },
    }
}

/// `item` with the workflow state persisted for its URL, if any.
pub open spec fn restored(persisted: Map<Seq<char>, WorkflowState>, item: FeedItem) -> FeedItem {
    if persisted.dom().contains(item.url@) {
        FeedItem { workflow_state: persisted[item.url@], ..item }
    } else {
        item
    }
}

/// `item` carrying workflow state `s`.
pub open spec fn with_workflow(item: FeedItem, s: WorkflowState) -> FeedItem {
    FeedItem { workflow_state: s, ..item }
}

/// How a fetched item was merged.
#[derive(Clone, Copy, Debug, PartialEq, Eq, Structural)]
pub enum ItemMergeOutcome {
    /// An existing item was replaced (URL hit, or the canonical arXiv
    /// entry replacing a mirror of it).
    Updated,
    /// The item was appended.
    NewPushed,
    /// A mirror of a known arXiv paper: dropped.
    DroppedDuplicate,
}

/// The result of merging one fetched item.
pub open spec fn fetched_step(v: StoreView, persisted: Map<Seq<char>, WorkflowState>, item: FeedItem) -> (
    StoreView,
    ItemMergeOutcome,
) {
    let it = restored(persisted, item);
    if v.urls.dom().contains(item.url@) {
        (replace_view(v, v.urls[item.url@], it), ItemMergeOutcome::Updated)
    } else {
        match arxiv_id_spec(item.url@) {
            Some(aid) => if v.aids.dom().contains(aid) {
                let pos = v.aids[aid];
                if item.source_platform == SourcePlatform::ArXiv {
                    (
                        replace_view(v, pos, with_workflow(it, v.items[pos as int].workflow_state)),
                        ItemMergeOutcome::Updated,
                    )
                } else {
                    (v, ItemMergeOutcome::DroppedDuplicate)
                }
            } else {
                (push_view(v, it), ItemMergeOutcome::NewPushed)
            },
            None => (push_view(v, it), ItemMergeOutcome::NewPushed),
        }
    }
}

/// How an enriched item was merged.
#[derive(Clone, Copy, Debug, PartialEq, Eq, Structural)]
pub enum EnrichOutcome {
    /// An existing item was replaced, keeping its workflow state.
    Replaced,
    /// A canonical arXiv entry took the mirror's repo links / full text
    /// where it had none.
    Filled,
    /// The item was appended.
    Pushed,
}

/// The canonical entry `ex` completed from a mirror `it`: repo links and
/// full text are taken only where `ex` has none.
pub open spec fn filled(ex: FeedItem, it: FeedItem) -> FeedItem {
    let no_repo = ex.github_repo is None;
    FeedItem {
        github_repo: if no_repo {
            it.github_repo
        } else {
            ex.github_repo
        },
        github_owner: if no_repo {
            it.github_owner
        } else {
            ex.github_owner
        },
        github_repo_name: if no_repo {
            it.github_repo_name
        } else {
            ex.github_repo_name
        },
        full_content: if ex.full_content is None {
            it.full_content
        } else {
            ex.full_content
        },
        ..ex
    }
}

/// The result of merging one enriched item.
pub open spec fn enriched_step(v: StoreView, persisted: Map<Seq<char>, WorkflowState>, item: FeedItem) -> (
    StoreView,
    EnrichOutcome,
) {
    let it = restored(persisted, item);
    if v.urls.dom().contains(item.url@) {
        let pos = v.urls[item.url@];
        (
            replace_view(v, pos, with_workflow(it, v.items[pos as int].workflow_state)),
            EnrichOutcome::Replaced,
        )
    } else {
        match arxiv_id_spec(item.url@) {
            Some(aid) => if v.aids.dom().contains(aid) {
                let pos = v.aids[aid];
                let ex = v.items[pos as int];
                if ex.source_platform == SourcePlatform::ArXiv && item.source_platform
                    != SourcePlatform::ArXiv {
                    (
                        StoreView { items: v.items.update(pos as int, filled(ex, it)), ..v },
                        EnrichOutcome::Filled,
                    )
                } else {
                    (
                        replace_view(v, pos, with_workflow(it, ex.workflow_state)),
                        EnrichOutcome::Replaced,
                    )
                }
            } else {
                (push_view(v, it), EnrichOutcome::Pushed)
            },
            None => (push_view(v, it), EnrichOutcome::Pushed),
        }
    }
}

/// `item` with the workflow state persisted for its URL restored.
fn restore_state(persisted: &crate::collections::StrMap<WorkflowState>, item: FeedItem) -> (r: FeedItem)
    requires
        persisted.wf(),
    ensures
        r == restored(persisted@, item),
{
    let mut item = item;
    match persisted.get(item.url.as_str()) {
        Some(s) => {
            item.workflow_state = *s;
        },
        None => {},
    }
    item
}

/// Merge one fetched item into the corpus (see module docs).
pub fn merge_fetched_item(workspace: &mut Workspace, item: FeedItem) -> (out: ItemMergeOutcome)
    requires
        old(workspace).wf(),
    ensures
        final(workspace).wf(),
        final(workspace).persisted_states == old(workspace).persisted_states,
        (store_view(final(workspace).items_store), out) == fetched_step(
            store_view(old(workspace).items_store),
            old(workspace).persisted_states@,
            item,
        ),
{
    let ghost orig = item;
    let item = restore_state(&workspace.persisted_states, item);
    match workspace.items_store.find_index_by_url(item.url.as_str()) {
        Some(pos) => {
            workspace.items_store.replace_at(pos, item);
            return ItemMergeOutcome::Updated;
        },
        None => {},
    }
    match arxiv_id_from_url(item.url.as_str()) {
        Some(aid) => match workspace.items_store.find_index_by_arxiv_id(aid.as_str()) {
            Some(pos) => {
                if item.source_platform == SourcePlatform::ArXiv {
                    let ws = workspace.items_store.get(pos).unwrap().workflow_state;
                    let mut item = item;
                    item.workflow_state = ws;
                    workspace.items_store.replace_at(pos, item);
                    return ItemMergeOutcome::Updated;
                }
                return ItemMergeOutcome::DroppedDuplicate;
            },
            None => {},
        },
        None => {},
    }
    workspace.items_store.push(item);
    ItemMergeOutcome::NewPushed
}

/// Merge one enriched item into the corpus (see module docs).
pub fn merge_enriched_item(workspace: &mut Workspace, item: FeedItem) -> (out: EnrichOutcome)
    requires
        old(workspace).wf(),
    ensures
        final(workspace).wf(),
        final(workspace).persisted_states == old(workspace).persisted_states,
        (store_view(final(workspace).items_store), out) == enriched_step(
            store_view(old(workspace).items_store),
            old(workspace).persisted_states@,
            item,
        ),
{
    let mut item = restore_state(&workspace.persisted_states, item);
    match workspace.items_store.find_index_by_url(item.url.as_str()) {
        Some(pos) => {
            let ws = workspace.items_store.get(pos).unwrap().workflow_state;
            item.workflow_state = ws;
            workspace.items_store.replace_at(pos, item);
            return EnrichOutcome::Replaced;
        },
        None => {},
    }
    match arxiv_id_from_url(item.url.as_str()) {
        Some(aid) => match workspace.items_store.find_index_by_arxiv_id(aid.as_str()) {
            Some(pos) => {
                let existing = workspace.items_store.get(pos).unwrap();
                let ws = existing.workflow_state;
                let canonical = existing.source_platform == SourcePlatform::ArXiv;
                if canonical && item.source_platform != SourcePlatform::ArXiv {
                    match workspace.items_store.get_mut(pos) {
                        Some(ex) => {
                            if ex.github_repo.is_none() {
                                ex.github_repo = item.github_repo;
                                ex.github_owner = item.github_owner;
                                ex.github_repo_name = item.github_repo_name;
                            }
                            if ex.full_content.is_none() {
                                ex.full_content = item.full_content;
                            }
                        },
                        None => {},
                    }
                    return EnrichOutcome::Filled;
                }
                item.workflow_state = ws;
                workspace.items_store.replace_at(pos, item);
                return EnrichOutcome::Replaced;
            },
            None => {},
        },
        None => {},
    }
    workspace.items_store.push(item);
    EnrichOutcome::Pushed
}

/// Law: after a fetched item is merged, it can be found — under its URL
/// when it was appended or replaced a same-URL entry — unless it was a
/// dropped mirror, in which case nothing changed.
pub proof fn lemma_merged_item_is_found(v: StoreView, persisted: Map<Seq<char>, WorkflowState>, item: FeedItem)
    requires
        v.items.len() < usize::MAX,
        forall|k: Seq<char>| #[trigger] v.urls.dom().contains(k) ==> v.urls[k] < v.items.len(),
        forall|k: Seq<char>| #[trigger] v.aids.dom().contains(k) ==> v.aids[k] < v.items.len(),
    ensures
        ({
            let (w, out) = fetched_step(v, persisted, item);
            match out {
                ItemMergeOutcome::DroppedDuplicate => w == v,
                ItemMergeOutcome::NewPushed => w.items.len() == v.items.len() + 1 && w.urls.dom().contains(
                    item.url@,
                ) && w.items[w.urls[item.url@] as int].url@ == item.url@,
                ItemMergeOutcome::Updated => w.items.len() == v.items.len(),
            }
        }),
{
    let it = restored(persisted, item);
    assert(it.url@ == item.url@);
}

/// Law: a merge never changes the number of items except by appending
/// exactly one.
pub proof fn lemma_merge_grows_by_at_most_one(v: StoreView, persisted: Map<Seq<char>, WorkflowState>, item: FeedItem)
    requires
        forall|k: Seq<char>| #[trigger] v.urls.dom().contains(k) ==> v.urls[k] < v.items.len(),
        forall|k: Seq<char>| #[trigger] v.aids.dom().contains(k) ==> v.aids[k] < v.items.len(),
    ensures
        fetched_step(v, persisted, item).0.items.len() == v.items.len() + if fetched_step(
            v,
            persisted,
            item,
        ).1 == ItemMergeOutcome::NewPushed {
            1int
        } else {
            0int
        },
        enriched_step(v, persisted, item).0.items.len() == v.items.len() + if enriched_step(
            v,
            persisted,
            item,
        ).1 == EnrichOutcome::Pushed {
            1int
        } else {
            0int
        },
{
}


/// Every index entry of `v` names a position inside its item list.
pub open spec fn indices_in_range(v: StoreView) -> bool {
    &&& forall|k: Seq<char>| #[trigger] v.urls.dom().contains(k) ==> v.urls[k] < v.items.len()
    &&& forall|k: Seq<char>| #[trigger] v.aids.dom().contains(k) ==> v.aids[k] < v.items.len()
}

/// The discovered items and their dedup indices.
pub open spec fn discovery_view(d: DiscoveryModel) -> StoreView {
    StoreView { items: d.items@, urls: d.url_index@, aids: d.arxiv_id_index@ }
}

/// One discovered item merged into the discovery list. Unlike the corpus
/// merge, a replacement in place leaves both indices as they are (they
/// are rebuilt once the whole batch is in).
pub open spec fn discovery_step(v: StoreView, persisted: Map<Seq<char>, WorkflowState>, item: FeedItem) -> StoreView {
    let it = restored(persisted, item);
    if v.urls.dom().contains(item.url@) {
        StoreView { items: v.items.update(v.urls[item.url@] as int, it), ..v }
    } else {
        match arxiv_id_spec(item.url@) {
            Some(aid) => if v.aids.dom().contains(aid) {
                let pos = v.aids[aid] as int;
                if item.source_platform == SourcePlatform::ArXiv {
                    StoreView {
                        items: v.items.update(pos, with_workflow(it, v.items[pos].workflow_state)),
                        ..v
                    }
                } else {
                    v
                }
            } else {
                push_view(v, it)
            },
            None => push_view(v, it),
        }
    }
}

/// The discovered items `items` merged one by one, in order.
pub open spec fn discovery_fold(
    v: StoreView,
    persisted: Map<Seq<char>, WorkflowState>,
    items: Seq<FeedItem>,
) -> StoreView
    decreases items.len(),
{
    if items.len() == 0 {
        v
    } else {
        discovery_step(discovery_fold(v, persisted, items.drop_last()), persisted, items.last())
    }
}

proof fn lemma_discovery_fold_in_range(
    v: StoreView,
    persisted: Map<Seq<char>, WorkflowState>,
    items: Seq<FeedItem>,
)
    requires
        indices_in_range(v),
    ensures
        indices_in_range(discovery_fold(v, persisted, items)),
        v.items.len() <= discovery_fold(v, persisted, items).items.len() <= v.items.len() + items.len(),
    decreases items.len(),
{
    if items.len() > 0 {
        lemma_discovery_fold_in_range(v, persisted, items.drop_last());
    }
}

/// Merge a batch of discovered items into the discovery list (the dedup
/// rules of the corpus merge, with the persisted workflow state restored),
/// then sort the list newest first and rebuild both indices.
pub fn merge_discovery_items(
    discovery: &mut DiscoveryModel,
    persisted: &StrMap<WorkflowState>,
    items: Vec<FeedItem>,
)
    requires
        old(discovery).url_index.wf(),
        old(discovery).arxiv_id_index.wf(),
        persisted.wf(),
        indices_in_range(discovery_view(*old(discovery))),
        old(discovery).items@.len() + items@.len() <= usize::MAX,
    ensures
        final(discovery).items@ == newest_first_order(
            discovery_fold(discovery_view(*old(discovery)), persisted@, items@).items,
        ),
        sorted_newest_first(final(discovery).items@),
        old(discovery).items@.len() <= final(discovery).items@.len() <= old(discovery).items@.len()
            + items@.len(),
        final(discovery).url_index.wf(),
        final(discovery).arxiv_id_index.wf(),
        final(discovery).url_index@ == url_index_spec(final(discovery).items@),
        final(discovery).arxiv_id_index@ == arxiv_index_spec(final(discovery).items@),
        *final(discovery) == (DiscoveryModel {
            items: final(discovery).items,
            url_index: final(discovery).url_index,
            arxiv_id_index: final(discovery).arxiv_id_index,
            ..*old(discovery)
        }),
{
    let ghost v0 = discovery_view(*discovery);
    let mut src = items;
    let ghost orig = src@;
    let n = src.len();
    let mut k: usize = 0;
    assert(take_n(orig, 0) =~= Seq::<FeedItem>::empty());
    assert(skip_n(orig, 0) == orig);
    while k < n
        invariant
            n == orig.len(),
            k <= n,
            src@ == skip_n(orig, k),
            persisted.wf(),
            v0.items.len() + n <= usize::MAX,
            discovery.url_index.wf(),
            discovery.arxiv_id_index.wf(),
            discovery_view(*discovery) == discovery_fold(v0, persisted@, take_n(orig, k)),
            indices_in_range(discovery_view(*discovery)),
            discovery.items@.len() <= v0.items.len() + k,
            *discovery == (DiscoveryModel {
                items: discovery.items,
                url_index: discovery.url_index,
                arxiv_id_index: discovery.arxiv_id_index,
                ..*old(discovery)
            }),
        decreases n - k,
    {
        let ghost k0 = k;
        let ghost before = src@;
        let ghost pre = discovery_view(*discovery);
        let x = src.remove(0);
        let ghost gx = x;
        let item = restore_state(persisted, x);
        let url_hit: Option<usize> = match discovery.url_index.get(item.url.as_str()) {
            Some(p) => Some(*p),
            None => None,
        };
        match url_hit {
            Some(pos) => {
                assert(pre.urls.dom().contains(item.url@));
                discovery.items.set(pos, item);
            },
            None => {
                let aid = arxiv_id_from_url(item.url.as_str());
                let aid_hit: Option<usize> = match &aid {
                    Some(a) => match discovery.arxiv_id_index.get(a.as_str()) {
                        Some(p) => Some(*p),
                        None => None,
                    },
                    None => None,
                };
                match aid_hit {
                    Some(pos) => {
                        assert(pre.aids.dom().contains(aid->0@));
                        if item.source_platform == SourcePlatform::ArXiv {
                            let ws = discovery.items[pos].workflow_state;
                            let mut item = item;
                            item.workflow_state = ws;
                            discovery.items.set(pos, item);
                        }
                    },
                    None => {
                        let new_idx = discovery.items.len();
                        discovery.url_index.insert(item.url.clone(), new_idx);
                        match aid {
                            Some(a) => {
                                discovery.arxiv_id_index.insert(a, new_idx);
                            },
                            None => {},
                        }
                        discovery.items.push(item);
                    },
                }
            },
        }
        k += 1;
        proof {
            assert(before[0] == at_n(orig, k0));
            assert(src@ =~= skip_n(orig, k));
            assert(take_n(orig, k).drop_last() =~= take_n(orig, k0));
            assert(take_n(orig, k).last() == gx);
            assert(discovery_view(*discovery) =~= discovery_step(pre, persisted@, gx));
        }
    }
    assert(take_n(orig, n) == orig);
    proof {
        lemma_discovery_fold_in_range(v0, persisted@, orig);
    }
    let mut merged: Vec<FeedItem> = Vec::new();
    std::mem::swap(&mut merged, &mut discovery.items);
    discovery.items = sort_items_newest_first(merged);
    discovery.rebuild_discovery_indices();
}

} // verus!
