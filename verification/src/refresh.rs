//! Folding the messages of a bulk refresh into the workspace and the
//! refresh progress: fetched and enriched items are merged, finished and
//! failed sources leave the loading list, and the end of the refresh
//! clears the loading flags. After a batch, a corpus that gained items is
//! re-sorted newest first.

use vstd::prelude::*;

use crate::item_store::{arxiv_index_spec, newest_first_order, sorted_newest_first, url_index_spec};
use crate::merge::{
    enriched_step, fetched_step, merge_enriched_item, merge_fetched_item, store_view, EnrichOutcome,
    ItemMergeOutcome, StoreView,
};
use crate::feed::FeedModel;
use crate::messages::{Effect, FetchMessage};
use crate::models::{FeedItem, WorkflowState};
use crate::text::{str_eq, views};
use crate::workspace::Workspace;

verus! {

/// Progress of a bulk refresh, as the status bar shows it.
pub struct FetchProgress {
    pub is_loading: bool,
    pub is_refreshing: bool,
    /// Sources still fetching.
    pub loading_sources: Vec<String>,
    /// Sources that finished.
    pub loaded_sources: Vec<String>,
    /// Last error reported by a source.
    pub status_message: Option<String>,
}

/// What a batch of messages changed in the corpus.
#[derive(Clone, Copy, Debug)]
pub struct MergeSummary {
    /// An item was appended.
    pub structural: bool,
    /// A fetched item replaced an existing one.
    pub source_updates: bool,
    /// An enrichment changed an existing item.
    pub enriched_updates: bool,
}

/// Fetched items merged in order; also whether one was appended and
/// whether one replaced an existing item.
pub open spec fn fetched_fold(v: StoreView, persisted: Map<Seq<char>, WorkflowState>, items: Seq<FeedItem>) -> (
    StoreView,
    bool,
    bool,
)
    decreases items.len(),
{
    if items.len() == 0 {
        (v, false, false)
    } else {
        let (w, pushed, updated) = fetched_fold(v, persisted, items.drop_last());
        let (w2, out) = fetched_step(w, persisted, items.last());
        (w2, pushed || out == ItemMergeOutcome::NewPushed, updated || out == ItemMergeOutcome::Updated)
    }
}

/// Enriched items merged in order; also whether one was appended and
/// whether one changed an existing item.
pub open spec fn enriched_fold(v: StoreView, persisted: Map<Seq<char>, WorkflowState>, items: Seq<FeedItem>) -> (
    StoreView,
    bool,
    bool,
)
    decreases items.len(),
{
    if items.len() == 0 {
        (v, false, false)
    } else {
        let (w, pushed, changed) = enriched_fold(v, persisted, items.drop_last());
        let (w2, out) = enriched_step(w, persisted, items.last());
        (w2, pushed || out == EnrichOutcome::Pushed, changed || out != EnrichOutcome::Pushed)
    }
}

/// `names` without any entry equal to `name`.
pub open spec fn without(names: Seq<Seq<char>>, name: Seq<char>) -> Seq<Seq<char>>
    decreases names.len(),
{
    if names.len() == 0 {
        names
    } else if names.last() == name {
        without(names.drop_last(), name)
    } else {
        without(names.drop_last(), name).push(names.last())
    }
}

fn remove_name(names: &mut Vec<String>, name: &str)
    ensures
        views(final(names)@) == without(views(old(names)@), name@),
{
    let mut src: Vec<String> = Vec::new();
    std::mem::swap(&mut src, names);
    let ghost orig = views(src@);
    let mut out: Vec<String> = Vec::new();
    let n = src.len();
    let mut k: usize = 0;
    assert(orig.take(0) =~= Seq::<Seq<char>>::empty());
    while k < n
        invariant
            n == src@.len(),
            orig == views(src@),
            k <= n,
            views(out@) == without(orig.take(k as int), name@),
        decreases n - k,
    {
        proof {
            assert(orig.take(k + 1).drop_last() == orig.take(k as int));
            assert(orig.take(k + 1).last() == src@[k as int]@);
        }
        if !str_eq(src[k].as_str(), name) {
            let ghost before = out@;
            out.push(crate::text::to_owned_string(src[k].as_str()));
            assert(views(out@) =~= views(before).push(src@[k as int]@));
        }
        k += 1;
    }
    assert(orig.take(n as int) == orig);
    *names = out;
}

fn merge_fetched_items(workspace: &mut Workspace, items: Vec<FeedItem>) -> (r: (bool, bool))
    requires
        old(workspace).wf(),
    ensures
        final(workspace).wf(),
        final(workspace).persisted_states == old(workspace).persisted_states,
        (store_view(final(workspace).items_store), r.0, r.1) == fetched_fold(
            store_view(old(workspace).items_store),
            old(workspace).persisted_states@,
            items@,
        ),
{
    let ghost v0 = store_view(workspace.items_store);
    let ghost persisted = workspace.persisted_states@;
    let ghost all = items@;
    let mut rest = items;
    let mut pushed = false;
    let mut updated = false;
    let n = rest.len();
    let mut k: usize = 0;
    assert(all.take(0) =~= Seq::<FeedItem>::empty());
    assert(all.skip(0) == all);
    while k < n
        invariant
            n == all.len(),
            k <= n,
            rest@ == all.skip(k as int),
            workspace.wf(),
            workspace.persisted_states@ == persisted,
            workspace.persisted_states == old(workspace).persisted_states,
            (store_view(workspace.items_store), pushed, updated) == fetched_fold(
                v0,
                persisted,
                all.take(k as int),
            ),
        decreases n - k,
    {
        let ghost before = rest@;
        let item = rest.remove(0);
        proof {
            assert(before[0] == all[k as int]);
            assert(all.take(k + 1).drop_last() == all.take(k as int));
            assert(all.take(k + 1).last() == all[k as int]);
            assert(rest@ =~= all.skip(k + 1));
        }
        let out = merge_fetched_item(workspace, item);
        pushed = pushed || out == ItemMergeOutcome::NewPushed;
        updated = updated || out == ItemMergeOutcome::Updated;
        k += 1;
    }
    assert(all.take(n as int) == all);
    (pushed, updated)
}

#[verifier::spinoff_prover]
#[verifier::rlimit(60)]
fn merge_enriched_items(workspace: &mut Workspace, items: Vec<FeedItem>) -> (r: (bool, bool))
    requires
        old(workspace).wf(),
    ensures
        final(workspace).wf(),
        final(workspace).persisted_states == old(workspace).persisted_states,
        (store_view(final(workspace).items_store), r.0, r.1) == enriched_fold(
            store_view(old(workspace).items_store),
            old(workspace).persisted_states@,
            items@,
        ),
{
    let ghost v0 = store_view(workspace.items_store);
    let ghost persisted = workspace.persisted_states@;
    let ghost all = items@;
    let mut rest = items;
    let mut pushed = false;
    let mut changed = false;
    let n = rest.len();
    let mut k: usize = 0;
    assert(all.take(0) =~= Seq::<FeedItem>::empty());
    assert(all.skip(0) == all);
    while k < n
        invariant
            n == all.len(),
            k <= n,
            rest@ == all.skip(k as int),
            workspace.wf(),
            workspace.persisted_states@ == persisted,
            workspace.persisted_states == old(workspace).persisted_states,
            (store_view(workspace.items_store), pushed, changed) == enriched_fold(
                v0,
                persisted,
                all.take(k as int),
            ),
        decreases n - k,
    {
        let ghost before = rest@;
        let item = rest.remove(0);
        proof {
            assert(before[0] == all[k as int]);
            assert(all.take(k + 1).drop_last() == all.take(k as int));
            assert(all.take(k + 1).last() == all[k as int]);
            assert(rest@ =~= all.skip(k + 1));
        }
        let out = merge_enriched_item(workspace, item);
        pushed = pushed || out == EnrichOutcome::Pushed;
        changed = changed || out != EnrichOutcome::Pushed;
        k += 1;
    }
    assert(all.take(n as int) == all);
    (pushed, changed)
}

/// Apply one refresh message.
pub fn apply_fetch_message(
    workspace: &mut Workspace,
    progress: &mut FetchProgress,
    summary: &mut MergeSummary,
    msg: FetchMessage,
)
    requires
        old(workspace).wf(),
    ensures
        final(workspace).wf(),
        final(workspace).persisted_states == old(workspace).persisted_states,
        ({
            let v = store_view(old(workspace).items_store);
            let p = old(workspace).persisted_states@;
            match msg {
                FetchMessage::Items(items) => {
                    let (w, pushed, updated) = fetched_fold(v, p, items@);
                    &&& store_view(final(workspace).items_store) == w
                    &&& final(summary).structural == (old(summary).structural || pushed)
                    &&& final(summary).source_updates == (old(summary).source_updates || updated)
                    &&& final(summary).enriched_updates == old(summary).enriched_updates
                    &&& *final(progress) == *old(progress)
                },
                FetchMessage::EnrichedItems(items) => {
                    let (w, pushed, changed) = enriched_fold(v, p, items@);
                    &&& store_view(final(workspace).items_store) == w
                    &&& final(summary).structural == (old(summary).structural || pushed)
                    &&& final(summary).source_updates == old(summary).source_updates
                    &&& final(summary).enriched_updates == (old(summary).enriched_updates
                        || changed)
                    &&& *final(progress) == *old(progress)
                },
                FetchMessage::SourceComplete(name) => {
                    &&& store_view(final(workspace).items_store) == v
                    &&& *final(summary) == *old(summary)
                    &&& views(final(progress).loading_sources@) == without(
                        views(old(progress).loading_sources@),
                        name@,
                    )
                    &&& views(final(progress).loaded_sources@) == views(
                        old(progress).loaded_sources@,
                    ).push(name@)
                    &&& final(progress).status_message == old(progress).status_message
                    &&& final(progress).is_loading == old(progress).is_loading
                    &&& final(progress).is_refreshing == old(progress).is_refreshing
                },
                FetchMessage::SourceError(name, err) => {
                    &&& store_view(final(workspace).items_store) == v
                    &&& *final(summary) == *old(summary)
                    &&& views(final(progress).loading_sources@) == without(
                        views(old(progress).loading_sources@),
                        name@,
                    )
                    &&& final(progress).loaded_sources == old(progress).loaded_sources
                    &&& final(progress).status_message == Some(err)
                    &&& final(progress).is_loading == old(progress).is_loading
                    &&& final(progress).is_refreshing == old(progress).is_refreshing
                },
                FetchMessage::AllComplete => {
                    &&& store_view(final(workspace).items_store) == v
                    &&& *final(summary) == *old(summary)
                    &&& *final(progress) == (FetchProgress {
                        is_loading: false,
                        is_refreshing: false,
                        ..*old(progress)
                    })
                },
            }
        }),
{
    match msg {
        FetchMessage::Items(items) => {
            let (pushed, updated) = merge_fetched_items(workspace, items);
            summary.structural = summary.structural || pushed;
            summary.source_updates = summary.source_updates || updated;
        },
        FetchMessage::EnrichedItems(items) => {
            let (pushed, changed) = merge_enriched_items(workspace, items);
            summary.structural = summary.structural || pushed;
            summary.enriched_updates = summary.enriched_updates || changed;
        },
        FetchMessage::SourceComplete(name) => {
            remove_name(&mut progress.loading_sources, name.as_str());
            let ghost before = progress.loaded_sources@;
            let ghost nv = name@;
            progress.loaded_sources.push(name);
            assert(views(progress.loaded_sources@) =~= views(before).push(nv));
        },
        FetchMessage::SourceError(name, err) => {
            remove_name(&mut progress.loading_sources, name.as_str());
            progress.status_message = Some(err);
        },
        FetchMessage::AllComplete => {
            progress.is_loading = false;
            progress.is_refreshing = false;
        },
    }
}

/// Close a batch: a corpus that gained items is re-sorted newest first,
/// with its indices rebuilt. Returns whether the items changed at all.
pub fn finish_fetch_batch(workspace: &mut Workspace, summary: &MergeSummary) -> (changed: bool)
    requires
        old(workspace).wf(),
    ensures
        final(workspace).wf(),
        final(workspace).persisted_states == old(workspace).persisted_states,
        changed == (summary.structural || summary.source_updates || summary.enriched_updates),
        summary.structural ==> final(workspace).items_store@ == newest_first_order(
            old(workspace).items_store@,
        ) && sorted_newest_first(final(workspace).items_store@)
            && final(workspace).items_store@.to_multiset() == old(
            workspace,
        ).items_store@.to_multiset() && final(workspace).items_store.url_map() == url_index_spec(
            final(workspace).items_store@,
        ) && final(workspace).items_store.arxiv_map() == arxiv_index_spec(
            final(workspace).items_store@,
        ),
        !summary.structural ==> final(workspace).items_store == old(workspace).items_store,
{
    if summary.structural {
        workspace.items_store.sort_newest_first();
        true
    } else {
        summary.source_updates || summary.enriched_updates
    }
}

/// Close a batch for the feed pane (see [`finish_fetch_batch`]): when the
/// batch added items to a corpus that was empty before it (`was_empty`),
/// the Inbox list scrolls back to its top; when the items changed at all,
/// the one effect is `ItemsChanged`, otherwise there is none.
pub fn settle_fetch_batch(
    workspace: &mut Workspace,
    feed: &mut FeedModel,
    summary: &MergeSummary,
    was_empty: bool,
) -> (effects: Vec<Effect>)
    requires
        old(workspace).wf(),
    ensures
        final(workspace).wf(),
        final(workspace).persisted_states == old(workspace).persisted_states,
        summary.structural ==> final(workspace).items_store@ == newest_first_order(
            old(workspace).items_store@,
        ) && final(workspace).items_store.url_map() == url_index_spec(final(workspace).items_store@)
            && final(workspace).items_store.arxiv_map() == arxiv_index_spec(
            final(workspace).items_store@,
        ),
        !summary.structural ==> final(workspace).items_store == old(workspace).items_store,
        summary.structural && was_empty ==> final(feed).inbox_list@.offset == 0
            && final(feed).inbox_list@.selected == old(feed).inbox_list@.selected
            && final(feed).inbox_list@.count == old(feed).inbox_list@.count
            && final(feed).inbox_list@.viewport == old(feed).inbox_list@.viewport
            && *final(feed) == (FeedModel { inbox_list: final(feed).inbox_list, ..*old(feed) }),
        !(summary.structural && was_empty) ==> *final(feed) == *old(feed),
        (summary.structural || summary.source_updates || summary.enriched_updates) ==> effects@
            == seq![Effect::ItemsChanged],
        !(summary.structural || summary.source_updates || summary.enriched_updates) ==> effects@.len()
            == 0,
{
    let changed = finish_fetch_batch(workspace, summary);
    if summary.structural && was_empty {
        feed.inbox_list.set_offset(0);
    }
    let mut effects: Vec<Effect> = Vec::new();
    if changed {
        effects.push(Effect::ItemsChanged);
    }
    effects
}

} // verus!
