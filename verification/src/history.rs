//! Activity-log entries (paper opens and discovery queries), and the feed
//! item an opened paper is rebuilt from when it is no longer in any list.

use vstd::prelude::*;

use crate::feed::{workspace_feed_tab, workspace_feed_tab_spec, FeedModel};
use crate::models::{
    arxiv_id_from_url, arxiv_id_spec, same_item, ContentType, FeedItem, SignalLevel, SourcePlatform,
    WorkflowState,
};
use crate::state::discovery::DiscoveryModel;
use crate::state::feed::FeedTab;
use crate::workspace::Workspace;
use crate::text::{chars_of, contains_chars, contains_seq, lowercase, str_lowercase, to_owned_string, views};

verus! {

/// What an activity-log entry records.
#[derive(Clone, Copy, Debug, PartialEq, Eq, Structural)]
pub enum HistoryKind {
    Paper,
    Query,
}

/// What the log keeps of an opened paper, enough to show it again.
pub struct HistoryPaperMeta {
    pub authors: Vec<String>,
    pub source_platform: SourcePlatform,
    pub published_at: String,
    pub summary_short: String,
}

/// One activity-log entry. `key` is the paper URL (or the query text).
pub struct HistoryEntry {
    pub kind: HistoryKind,
    pub key: String,
    pub title: String,
    pub title_lower: String,
    pub source: String,
    pub paper_meta: Option<HistoryPaperMeta>,
}

/// The feed item rebuilt from a logged paper: an inbox paper of tertiary
/// signal at the logged URL, with the logged title, source and metadata,
/// and its lowercase caches filled.
pub open spec fn reconstructed_spec(entry: HistoryEntry, meta: HistoryPaperMeta, item: FeedItem) -> bool {
    &&& item.id@ == entry.key@
    &&& item.title@ == entry.title@
    &&& item.source_platform == meta.source_platform
    &&& item.content_type == ContentType::Paper
    &&& item.domain_tags@.len() == 0
    &&& item.signal == SignalLevel::Tertiary
    &&& item.published_at@ == meta.published_at@
    &&& views(item.authors@) == views(meta.authors@)
    &&& item.summary_short@ == meta.summary_short@
    &&& item.workflow_state == WorkflowState::Inbox
    &&& item.url@ == entry.key@
    &&& item.upvote_count == 0
    &&& item.github_repo is None && item.github_owner is None && item.github_repo_name is None
    &&& item.benchmark_results@.len() == 0
    &&& item.full_content is None
    &&& item.source_name@ == entry.source@
    &&& item.title_lower@ == str_lowercase(entry.title@)
    &&& views(item.authors_lower@) == views(meta.authors@).map_values(|a: Seq<char>| str_lowercase(a))
}

/// Rebuild the feed item of a logged paper from its log entry.
pub fn reconstruct_history_feed_item(entry: &HistoryEntry, meta: &HistoryPaperMeta) -> (item: FeedItem)
    ensures
        reconstructed_spec(*entry, *meta, item),
{
    let mut authors: Vec<String> = Vec::new();
    let mut authors_lower: Vec<String> = Vec::new();
    let n = meta.authors.len();
    let mut i: usize = 0;
    while i < n
        invariant
            n == meta.authors@.len(),
            i <= n,
            views(authors@) == views(meta.authors@.take(i as int)),
            views(authors_lower@) == views(meta.authors@.take(i as int)).map_values(
                |a: Seq<char>| str_lowercase(a),
            ),
        decreases n - i,
    {
        let a = meta.authors[i].as_str();
        let ghost b1 = authors@;
        let ghost b2 = authors_lower@;
        authors.push(to_owned_string(a));
        authors_lower.push(lowercase(a));
        proof {
            assert(views(authors@) =~= views(b1).push(a@));
            assert(views(authors_lower@) =~= views(b2).push(str_lowercase(a@)));
            assert(views(meta.authors@.take(i + 1)) =~= views(meta.authors@.take(i as int)).push(a@));
        }
        i += 1;
    }
    assert(meta.authors@.take(n as int) == meta.authors@);
    FeedItem {
        id: to_owned_string(entry.key.as_str()),
        title: to_owned_string(entry.title.as_str()),
        source_platform: meta.source_platform,
        content_type: ContentType::Paper,
        domain_tags: Vec::new(),
        signal: SignalLevel::Tertiary,
        published_at: to_owned_string(meta.published_at.as_str()),
        authors,
        summary_short: to_owned_string(meta.summary_short.as_str()),
        workflow_state: WorkflowState::Inbox,
        url: to_owned_string(entry.key.as_str()),
        upvote_count: 0,
        github_repo: None,
        github_owner: None,
        github_repo_name: None,
        benchmark_results: Vec::new(),
        full_content: None,
        source_name: to_owned_string(entry.source.as_str()),
        title_lower: lowercase(entry.title.as_str()),
        authors_lower,
    }
}

/// Where the item a logged paper points to was found.
pub enum HistoryHit {
    /// At this position of the corpus.
    Corpus(nat),
    /// At this position of the discoveries.
    Discovered(nat),
    /// A discovery index entry that points past the discovered items.
    Missing,
    /// Nowhere: the item is rebuilt from the log entry.
    Rebuild,
}

/// The lookup order for a logged paper's key: the corpus by URL, then —
/// when the key carries an arXiv id — the corpus by arXiv id and the
/// discoveries by arXiv id, and last the discoveries by URL.
pub open spec fn history_hit(key: Seq<char>, ws: Workspace, d: DiscoveryModel) -> HistoryHit {
    let urls = ws.items_store.url_map();
    let arx = ws.items_store.arxiv_map();
    let by_url = if d.url_index@.dom().contains(key) && (d.url_index@[key] as int) < d.items@.len() {
        HistoryHit::Discovered(d.url_index@[key] as nat)
    } else {
        HistoryHit::Rebuild
    };
    if urls.dom().contains(key) {
        HistoryHit::Corpus(urls[key] as nat)
    } else {
        match arxiv_id_spec(key) {
            Some(aid) => if arx.dom().contains(aid) {
                HistoryHit::Corpus(arx[aid] as nat)
            } else if d.arxiv_id_index@.dom().contains(aid) {
                if (d.arxiv_id_index@[aid] as int) < d.items@.len() {
                    HistoryHit::Discovered(d.arxiv_id_index@[aid] as nat)
                } else {
                    HistoryHit::Missing
                }
            } else {
                by_url
            },
            None => by_url,
        }
    }
}

/// Where a logged paper's key leads, as an exec value.
fn find_history_hit(key: &str, workspace: &Workspace, discovery: &DiscoveryModel) -> (r: (
    u8,
    usize,
))
    requires
        workspace.wf(),
        discovery.url_index.wf(),
        discovery.arxiv_id_index.wf(),
    ensures
        match history_hit(key@, *workspace, *discovery) {
            HistoryHit::Corpus(i) => r.0 == 1 && r.1 == i && i < workspace.items_store@.len(),
            HistoryHit::Discovered(i) => r.0 == 2 && r.1 == i && i < discovery.items@.len(),
            HistoryHit::Missing => r.0 == 3,
            HistoryHit::Rebuild => r.0 == 0,
        },
{
    match workspace.items_store.find_index_by_url(key) {
        Some(i) => {
            return (1, i);
        },
        None => {},
    }
    match arxiv_id_from_url(key) {
        Some(aid) => {
            match workspace.items_store.find_index_by_arxiv_id(aid.as_str()) {
                Some(i) => {
                    return (1, i);
                },
                None => {},
            }
            match discovery.arxiv_id_index.get(aid.as_str()) {
                Some(i) => {
                    if *i < discovery.items.len() {
                        return (2, *i);
                    } else {
                        return (3, 0);
                    }
                },
                None => {},
            }
        },
        None => {},
    }
    match discovery.url_index.get(key) {
        Some(i) => {
            if *i < discovery.items.len() {
                (2, *i)
            } else {
                (0, 0)
            }
        },
        None => (0, 0),
    }
}

/// The feed item a history entry stands for: nothing for a query entry;
/// for a paper, a copy of the item found along [`history_hit`]'s lookup
/// order, or, when none is found, the item rebuilt from the entry's
/// logged metadata (nothing without metadata). A discovery arXiv-id entry
/// that points past the discovered items gives nothing.
pub fn history_item(entry: &HistoryEntry, workspace: &Workspace, discovery: &DiscoveryModel) -> (r:
    Option<FeedItem>)
    requires
        workspace.wf(),
        discovery.url_index.wf(),
        discovery.arxiv_id_index.wf(),
    ensures
        entry.kind != HistoryKind::Paper ==> r is None,
        entry.kind == HistoryKind::Paper ==> match history_hit(entry.key@, *workspace, *discovery) {
            HistoryHit::Corpus(i) => r matches Some(it) && same_item(it, workspace.items_store@[i as int]),
            HistoryHit::Discovered(i) => r matches Some(it) && same_item(it, discovery.items@[i as int]),
            HistoryHit::Missing => r is None,
            HistoryHit::Rebuild => match entry.paper_meta {
                Some(m) => r matches Some(it) && reconstructed_spec(*entry, m, it),
                None => r is None,
            },
        },
{
    if entry.kind != HistoryKind::Paper {
        return None;
    }
    let (src, i) = find_history_hit(entry.key.as_str(), workspace, discovery);
    if src == 1 {
        Some(workspace.items_store.items()[i].duplicate())
    } else if src == 2 {
        Some(discovery.items[i].duplicate())
    } else if src == 3 {
        None
    } else {
        match &entry.paper_meta {
            Some(m) => Some(reconstruct_history_feed_item(entry, m)),
            None => None,
        }
    }
}

/// Where activating a history entry leads: the tab that lists the found
/// item (the corpus tab of its workflow state, or Discoveries), its
/// workflow state and its URL. Nothing for a query entry or a paper that
/// no list holds.
pub fn history_item_target(
    entry: &HistoryEntry,
    workspace: &Workspace,
    discovery: &DiscoveryModel,
) -> (r: Option<(FeedTab, WorkflowState, String)>)
    requires
        workspace.wf(),
        discovery.url_index.wf(),
        discovery.arxiv_id_index.wf(),
    ensures
        entry.kind != HistoryKind::Paper ==> r is None,
        entry.kind == HistoryKind::Paper ==> match history_hit(entry.key@, *workspace, *discovery) {
            HistoryHit::Corpus(i) => {
                let it = workspace.items_store@[i as int];
                r matches Some((t, s, u)) && t == workspace_feed_tab_spec(it.workflow_state) && s
                    == it.workflow_state && u@ == it.url@
            },
            HistoryHit::Discovered(i) => {
                let it = discovery.items@[i as int];
                r matches Some((t, s, u)) && t == FeedTab::Discoveries && s == it.workflow_state
                    && u@ == it.url@
            },
            _ => r is None,
        },
{
    if entry.kind != HistoryKind::Paper {
        return None;
    }
    let (src, i) = find_history_hit(entry.key.as_str(), workspace, discovery);
    if src == 1 {
        let it = &workspace.items_store.items()[i];
        Some((workspace_feed_tab(it.workflow_state), it.workflow_state, it.url.clone()))
    } else if src == 2 {
        let it = &discovery.items[i];
        Some((FeedTab::Discoveries, it.workflow_state, it.url.clone()))
    } else {
        None
    }
}

/// Entry `e` is listed in the History tab: the history filter admits it
/// (`filter_ok`), its lowercase title contains the lowercase search query
/// (or the query is empty), and its source is an active source filter (or
/// none is active).
pub open spec fn history_listed(e: HistoryEntry, filter_ok: bool, query_lower: Seq<char>, sources: Set<Seq<char>>) -> bool {
    &&& filter_ok
    &&& (query_lower.len() == 0 || contains_seq(e.title_lower@, query_lower))
    &&& (sources == Set::<Seq<char>>::empty() || sources.contains(e.source@))
}

/// The positions of the listed entries among the first `k`, in order.
pub open spec fn listed_positions(
    h: Seq<HistoryEntry>,
    filter_ok: Seq<bool>,
    query_lower: Seq<char>,
    sources: Set<Seq<char>>,
    k: int,
) -> Seq<usize>
    decreases k,
{
    if k <= 0 {
        Seq::empty()
    } else {
        let prev = listed_positions(h, filter_ok, query_lower, sources, k - 1);
        if history_listed(h[k - 1], filter_ok[k - 1], query_lower, sources) {
            prev.push((k - 1) as usize)
        } else {
            prev
        }
    }
}

/// The History tab's list: the positions, in log order, of the entries
/// [`history_listed`] admits under the feed's lowercase search query and
/// source filters. `filter_ok` holds, per entry, whether the history
/// filter (kind and age) admits it.
pub fn filtered_history_for(history: &[HistoryEntry], feed: &FeedModel, filter_ok: &[bool]) -> (r: Vec<usize>)
    requires
        filter_ok@.len() == history@.len(),
        feed.active_filters.wf(),
    ensures
        r@ == listed_positions(
            history@,
            filter_ok@,
            feed.search_query_lower@,
            feed.active_filters.sources@,
            history@.len() as int,
        ),
{
    let q = chars_of(feed.search_query_lower.as_str());
    let no_sources = feed.active_filters.sources.is_empty();
    let mut r: Vec<usize> = Vec::new();
    let mut i: usize = 0;
    while i < history.len()
        invariant
            i <= history@.len(),
            filter_ok@.len() == history@.len(),
            feed.active_filters.wf(),
            q@ == feed.search_query_lower@,
            no_sources == (feed.active_filters.sources@ == Set::<Seq<char>>::empty()),
            r@ == listed_positions(
                history@,
                filter_ok@,
                feed.search_query_lower@,
                feed.active_filters.sources@,
                i as int,
            ),
        decreases history@.len() - i,
    {
        let e = &history[i];
        let title_ok = q.len() == 0 || contains_chars(&chars_of(e.title_lower.as_str()), &q);
        let source_ok = no_sources || feed.active_filters.sources.contains(e.source.as_str());
        if filter_ok[i] && title_ok && source_ok {
            r.push(i);
        }
        i += 1;
    }
    r
}

} // verus!
