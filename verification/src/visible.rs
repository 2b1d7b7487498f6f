//! The visible list of the feed pane: which items of the active tab pass
//! the tab's own filter, the subject-follow scope, the source toggles, the
//! tag filter and the filter panel, and in which order they are shown —
//! the active sort mode when nothing is searched, best search score first
//! (ties keeping list order) when something is.
//!
//! Three inputs come from outside this crate's reach and are taken as
//! plain per-item values, aligned with the tab's item list: whether the
//! Library sub-filter admits the item, the item's tags, and the item's
//! search score (`None` for no match).

use vstd::prelude::*;

use crate::collections::StrMap;
use crate::feed::{
    apply_sort_mode, items_for_tab, items_for_tab_spec, sort_mode_spec, subject_follow_scope,
    subject_scope_spec, FeedModel, FeedSortMode, SubjectScope,
};
use crate::feed_order::{
    in_range, lemma_published_since_subset, lemma_shuffle_multiset, lemma_sort_by_upvotes,
    published_since, trending_spec,
};
use crate::models::{FeedItem, SourcePlatform, WorkflowState};
use crate::search::{empty_query, parse_spec, year_bounds_fit, Query};
use crate::state::browse::BrowseModel;
use crate::state::discovery::DiscoveryModel;
use crate::state::feed::{FeedTab, FilterState};
use crate::text::str_eq;
use crate::workspace::Workspace;

verus! {

/// What decides whether an item is shown, besides the item itself.
pub struct FilterInputs {
    pub tab: FeedTab,
    /// Per item: the Library sub-filter admits its workflow state.
    pub library_ok: Seq<bool>,
    pub scope: Option<SubjectScope>,
    /// Source toggles: a source mapped to `false` is hidden.
    pub enabled: Map<Seq<char>, bool>,
    /// Per item: its tags.
    pub tags: Seq<Seq<Seq<char>>>,
    pub filters: FilterState,
    /// Per item: its search score, `None` for no match.
    pub scores: Seq<Option<i64>>,
    /// Whether a search query is active.
    pub searching: bool,
}

/// The key an item's source is toggled under.
pub open spec fn source_key_spec(item: FeedItem) -> Seq<char> {
    if item.source_platform == SourcePlatform::HuggingFace {
        "huggingface"@
    } else {
        item.source_name@
    }
}

/// Some tag of the item is an active tag filter (or none is active).
pub open spec fn tags_ok(tags: Seq<Seq<char>>, filters: FilterState) -> bool {
    filters.tags@ != Set::<Seq<char>>::empty() ==> exists|t: int|
        0 <= t < tags.len() && filters.tags@.contains(#[trigger] tags[t])
}

/// Item `i` passes every non-search filter.
pub open spec fn passes_filters(items: Seq<FeedItem>, inp: FilterInputs, i: int) -> bool {
    let item = items[i];
    &&& (inp.tab == FeedTab::Inbox ==> item.workflow_state == WorkflowState::Inbox)
    &&& (inp.tab == FeedTab::Library ==> inp.library_ok[i])
    &&& (inp.scope matches Some(s) ==> s.matches_spec(item))
    &&& !(inp.enabled.dom().contains(source_key_spec(item)) && !inp.enabled[source_key_spec(item)])
    &&& tags_ok(inp.tags[i], inp.filters)
    &&& inp.filters.matches_spec(item)
}

/// The surviving items among the first `k`, in list order, each with its
/// score (0 when nothing is searched; a searched item without a score
/// does not survive).
pub open spec fn survivors(items: Seq<FeedItem>, inp: FilterInputs, k: int) -> Seq<(usize, i64)>
    decreases k,
{
    if k <= 0 {
        Seq::empty()
    } else {
        let prev = survivors(items, inp, k - 1);
        let i = k - 1;
        if passes_filters(items, inp, i) && (!inp.searching || inp.scores[i] is Some) {
            prev.push((i as usize, if inp.searching { inp.scores[i]->0 } else { 0i64 }))
        } else {
            prev
        }
    }
}

/// Where a stable insertion by descending score places `x` in `out`,
/// scanning from `p`: before the first entry scoring strictly less.
pub open spec fn score_pos_from(out: Seq<(usize, i64)>, x: (usize, i64), p: int) -> int
    decreases out.len() - p,
{
    if p < 0 || p >= out.len() {
        out.len() as int
    } else if out[p].1 < x.1 {
        p
    } else {
        score_pos_from(out, x, p + 1)
    }
}

/// `s` sorted by descending score, entries of equal score keeping their
/// order (a stable insertion sort).
pub open spec fn score_order(s: Seq<(usize, i64)>) -> Seq<(usize, i64)>
    decreases s.len(),
{
    if s.len() == 0 {
        Seq::empty()
    } else {
        let out = score_order(s.drop_last());
        out.insert(score_pos_from(out, s.last(), 0), s.last())
    }
}

/// The positions named by scored entries.
pub open spec fn positions(s: Seq<(usize, i64)>) -> Seq<usize> {
    s.map_values(|p: (usize, i64)| p.0)
}

/// No entry scores higher than an entry before it.
pub open spec fn sorted_by_score(s: Seq<(usize, i64)>) -> bool {
    forall|i: int, j: int| 0 <= i < j < s.len() ==> (#[trigger] s[i]).1 >= (#[trigger] s[j]).1
}

/// The visible list: the survivors in sort-mode order when nothing is
/// searched, by descending score otherwise (the sort mode is bypassed).
pub open spec fn visible_spec(
    items: Seq<FeedItem>,
    inp: FilterInputs,
    mode: FeedSortMode,
    seed: u64,
    cutoff: Seq<char>,
) -> Seq<usize> {
    let surv = survivors(items, inp, items.len() as int);
    if inp.searching {
        positions(score_order(surv))
    } else {
        sort_mode_spec(positions(surv), items, mode, seed, cutoff)
    }
}

proof fn lemma_survivors_in_range(items: Seq<FeedItem>, inp: FilterInputs, k: int)
    requires
        k <= items.len(),
    ensures
        forall|j: int|
            0 <= j < survivors(items, inp, k).len() ==> (#[trigger] survivors(items, inp, k)[j]).0
                < items.len(),
        survivors(items, inp, k).len() <= if k < 0 { 0 } else { k },
    decreases k,
{
    if k > 0 {
        lemma_survivors_in_range(items, inp, k - 1);
    }
}

proof fn lemma_score_pos_facts(out: Seq<(usize, i64)>, x: (usize, i64), p: int)
    requires
        0 <= p <= out.len(),
        forall|k: int| 0 <= k < p ==> (#[trigger] out[k]).1 >= x.1,
    ensures
        p <= score_pos_from(out, x, p) <= out.len(),
        forall|k: int| 0 <= k < score_pos_from(out, x, p) ==> (#[trigger] out[k]).1 >= x.1,
        score_pos_from(out, x, p) < out.len() ==> out[score_pos_from(out, x, p)].1 < x.1,
    decreases out.len() - p,
{
    if p < out.len() && out[p].1 >= x.1 {
        lemma_score_pos_facts(out, x, p + 1);
    }
}

/// Law: the relevance order is sorted by descending score and holds the
/// same entries as its input.
pub proof fn lemma_score_order_sorted(s: Seq<(usize, i64)>)
    ensures
        sorted_by_score(score_order(s)),
        score_order(s).to_multiset() == s.to_multiset(),
        score_order(s).len() == s.len(),
    decreases s.len(),
{
    if s.len() == 0 {
        assert(s =~= Seq::<(usize, i64)>::empty());
    } else {
        let out = score_order(s.drop_last());
        lemma_score_order_sorted(s.drop_last());
        let x = s.last();
        lemma_score_pos_facts(out, x, 0);
        let p = score_pos_from(out, x, 0);
        let r = out.insert(p, x);
        assert forall|i: int, j: int| 0 <= i < j < r.len() implies (#[trigger] r[i]).1 >= (
        #[trigger] r[j]).1 by {
            if j < p {
                assert(r[i] == out[i] && r[j] == out[j]);
            } else if j == p {
                assert(r[i] == out[i] && r[j] == x);
            } else if i < p {
                assert(r[i] == out[i] && r[j] == out[j - 1]);
            } else if i == p {
                assert(r[i] == x && r[j] == out[j - 1]);
                assert(out[p].1 >= out[j - 1].1);
            } else {
                assert(r[i] == out[i - 1] && r[j] == out[j - 1]);
            }
        }
        vstd::seq_lib::to_multiset_insert(out, p, x);
        vstd::seq_lib::to_multiset_build(s.drop_last(), x);
        assert(s.drop_last().push(x) =~= s);
    }
}

proof fn lemma_survivors_pass(items: Seq<FeedItem>, inp: FilterInputs, k: int)
    requires
        k <= items.len() <= usize::MAX,
    ensures
        forall|j: int|
            0 <= j < survivors(items, inp, k).len() ==> {
                let e = #[trigger] survivors(items, inp, k)[j];
                &&& 0 <= e.0 < k
                &&& passes_filters(items, inp, e.0 as int)
                &&& (inp.searching ==> inp.scores[e.0 as int] == Some(e.1))
            },
    decreases k,
{
    if k > 0 {
        lemma_survivors_pass(items, inp, k - 1);
    }
}

proof fn lemma_sort_mode_keeps_only(
    s: Seq<usize>,
    items: Seq<FeedItem>,
    mode: FeedSortMode,
    seed: u64,
    cutoff: Seq<char>,
)
    ensures
        forall|x: usize| #[trigger] sort_mode_spec(s, items, mode, seed, cutoff).contains(x) ==> s.contains(x),
{
    broadcast use vstd::seq_lib::to_multiset_contains;

    let r = sort_mode_spec(s, items, mode, seed, cutoff);
    match mode {
        FeedSortMode::Dated => {},
        FeedSortMode::Random => {
            lemma_shuffle_multiset(s, s.len() - 1, seed | 1u64);
            assert forall|x: usize| #[trigger] r.contains(x) implies s.contains(x) by {
                assert(r.to_multiset().count(x) > 0);
            }
        },
        FeedSortMode::Popular => {
            lemma_sort_by_upvotes(s, items);
            assert forall|x: usize| #[trigger] r.contains(x) implies s.contains(x) by {
                assert(r.to_multiset().count(x) > 0);
            }
        },
        FeedSortMode::Trending => {
            let w = published_since(s, items, cutoff);
            lemma_sort_by_upvotes(w, items);
            lemma_published_since_subset(s, items, cutoff);
            assert forall|x: usize| #[trigger] r.contains(x) implies s.contains(x) by {
                assert(r.to_multiset().count(x) > 0);
                assert(w.contains(x));
            }
        },
    }
}

/// Law: every item the feed pane shows passes the tab's filters — the
/// tab's own filter, the subject scope, the source toggles, the tag filter
/// and the filter panel — whatever the sort mode; while searching, every
/// shown item has a search score.
pub proof fn lemma_visible_items_pass_filters(
    items: Seq<FeedItem>,
    inp: FilterInputs,
    mode: FeedSortMode,
    seed: u64,
    cutoff: Seq<char>,
)
    requires
        items.len() <= usize::MAX,
    ensures
        forall|j: int|
            0 <= j < visible_spec(items, inp, mode, seed, cutoff).len() ==> {
                let x = #[trigger] visible_spec(items, inp, mode, seed, cutoff)[j];
                &&& x < items.len()
                &&& passes_filters(items, inp, x as int)
                &&& (inp.searching ==> inp.scores[x as int] is Some)
            },
{
    broadcast use vstd::seq_lib::to_multiset_contains;

    let surv = survivors(items, inp, items.len() as int);
    lemma_survivors_pass(items, inp, items.len() as int);
    let v = visible_spec(items, inp, mode, seed, cutoff);
    assert forall|j: int| 0 <= j < v.len() implies {
        let x = #[trigger] v[j];
        &&& x < items.len()
        &&& passes_filters(items, inp, x as int)
        &&& (inp.searching ==> inp.scores[x as int] is Some)
    } by {
        let x = v[j];
        if inp.searching {
            let o = score_order(surv);
            lemma_score_order_sorted(surv);
            assert(o.contains(o[j]));
            assert(o.to_multiset().count(o[j]) > 0);
            assert(surv.contains(o[j]));
            let i = choose|i: int| 0 <= i < surv.len() && surv[i] == o[j];
            assert(surv[i].0 == x);
        } else {
            let ps = positions(surv);
            lemma_sort_mode_keeps_only(ps, items, mode, seed, cutoff);
            assert(v.contains(x));
            assert(ps.contains(x));
            let i = choose|i: int| 0 <= i < ps.len() && ps[i] == x;
            assert(surv[i].0 == x);
        }
    }
}

/// The positions of `scored`, best score first, equal scores keeping
/// their order.
pub fn rank_by_score(scored: Vec<(usize, i64)>) -> (r: Vec<usize>)
    ensures
        r@ == positions(score_order(scored@)),
{
    let mut src = scored;
    let ghost orig = src@;
    let n = src.len();
    let mut out: Vec<(usize, i64)> = Vec::new();
    let mut k: usize = 0;
    assert(orig.take(0) =~= Seq::<(usize, i64)>::empty());
    assert(orig.skip(0) == orig);
    while k < n
        invariant
            n == orig.len(),
            k <= n,
            src@ == orig.skip(k as int),
            out@ == score_order(orig.take(k as int)),
        decreases n - k,
    {
        let ghost before = src@;
        let x = src.remove(0);
        let mut p: usize = 0;
        while p < out.len() && !(out[p].1 < x.1)
            invariant
                p <= out@.len(),
                score_pos_from(out@, x, 0) == score_pos_from(out@, x, p as int),
            decreases out@.len() - p,
        {
            p += 1;
        }
        out.insert(p, x);
        proof {
            assert(before[0] == orig[k as int]);
            assert(src@ =~= orig.skip(k + 1));
            assert(orig.take(k + 1).drop_last() =~= orig.take(k as int));
            assert(orig.take(k + 1).last() == x);
        }
        k += 1;
    }
    assert(orig.take(n as int) == orig);
    let mut r: Vec<usize> = Vec::new();
    let mut i: usize = 0;
    while i < out.len()
        invariant
            i <= out@.len(),
            r@ == positions(out@).take(i as int),
        decreases out@.len() - i,
    {
        r.push(out[i].0);
        proof {
            assert(positions(out@).take(i + 1) =~= positions(out@).take(i as int).push(out@[i as int].0));
        }
        i += 1;
    }
    assert(positions(out@).take(out@.len() as int) =~= positions(out@));
    r
}

/// The per-item views of `tags`.
pub open spec fn tag_views(tags: Seq<Vec<String>>) -> Seq<Seq<Seq<char>>> {
    tags.map_values(|v: Vec<String>| v@.map_values(|s: String| s@))
}

/// The subject-follow scope of the feed: only on the Browse tab, with
/// subject-follow on, once the rail has been drilled at least once.
pub open spec fn feed_scope_spec(feed: FeedModel, browse: BrowseModel) -> Option<SubjectScope> {
    if feed.feed_tab == FeedTab::Browse && feed.subject_follow && browse.rail_path@.len() > 0 {
        Some(subject_scope_spec(browse.rail_path@, browse.rail_cursor@.selected as int))
    } else {
        None
    }
}

/// The filter inputs of the feed pane.
pub open spec fn feed_inputs(
    feed: FeedModel,
    browse: BrowseModel,
    enabled: Map<Seq<char>, bool>,
    library_ok: Seq<bool>,
    tags: Seq<Vec<String>>,
    scores: Seq<Option<i64>>,
) -> FilterInputs {
    FilterInputs {
        tab: feed.feed_tab,
        library_ok,
        scope: feed_scope_spec(feed, browse),
        enabled,
        tags: tag_views(tags),
        filters: feed.active_filters,
        scores,
        searching: parse_spec(feed.search_query@) != empty_query(),
    }
}

fn tags_match(tags: &Vec<String>, filters: &FilterState) -> (r: bool)
    requires
        filters.wf(),
    ensures
        r == tags_ok(tags@.map_values(|s: String| s@), *filters),
{
    let ghost tv = tags@.map_values(|s: String| s@);
    if filters.tags.is_empty() {
        return true;
    }
    let mut i: usize = 0;
    while i < tags.len()
        invariant
            filters.wf(),
            i <= tags@.len(),
            tv == tags@.map_values(|s: String| s@),
            forall|t: int| 0 <= t < i ==> !filters.tags@.contains(#[trigger] tv[t]),
        decreases tags@.len() - i,
    {
        if filters.tags.contains(tags[i].as_str()) {
            assert(filters.tags@.contains(tv[i as int]));
            return true;
        }
        i += 1;
    }
    false
}

fn source_enabled(enabled: &StrMap<bool>, item: &FeedItem) -> (r: bool)
    requires
        enabled.wf(),
    ensures
        r == !(enabled@.dom().contains(source_key_spec(*item)) && !enabled@[source_key_spec(
            *item,
        )]),
{
    let key: &str = if item.source_platform == SourcePlatform::HuggingFace {
        "huggingface"
    } else {
        item.source_name.as_str()
    };
    match enabled.get(key) {
        Some(e) => *e,
        None => true,
    }
}

fn item_passes(
    items: &[FeedItem],
    i: usize,
    feed: &FeedModel,
    browse: &BrowseModel,
    scope: &Option<SubjectScope>,
    enabled_sources: &StrMap<bool>,
    library_ok: &[bool],
    item_tags: &[Vec<String>],
    scores: &[Option<i64>],
) -> (r: bool)
    requires
        i < items@.len(),
        enabled_sources.wf(),
        feed.active_filters.wf(),
        library_ok@.len() == items@.len(),
        item_tags@.len() == items@.len(),
        *scope == feed_scope_spec(*feed, *browse),
    ensures
        r == passes_filters(
            items@,
            feed_inputs(*feed, *browse, enabled_sources@, library_ok@, item_tags@, scores@),
            i as int,
        ),
{
    let ghost inp = feed_inputs(*feed, *browse, enabled_sources@, library_ok@, item_tags@, scores@);
    let item = &items[i];
    let tab_ok = match feed.feed_tab {
        FeedTab::Inbox => item.workflow_state == WorkflowState::Inbox,
        FeedTab::Library => library_ok[i],
        _ => true,
    };
    let scope_ok = match scope {
        Some(s) => s.matches(item),
        None => true,
    };
    let r = tab_ok && scope_ok && source_enabled(enabled_sources, item) && tags_match(
        &item_tags[i],
        &feed.active_filters,
    ) && feed.active_filters.matches(item);
    assert(inp.tags[i as int] == item_tags@[i as int]@.map_values(|s: String| s@));
    r
}

fn collect_survivors(
    items: &[FeedItem],
    feed: &FeedModel,
    browse: &BrowseModel,
    scope: &Option<SubjectScope>,
    searching: bool,
    enabled_sources: &StrMap<bool>,
    library_ok: &[bool],
    item_tags: &[Vec<String>],
    scores: &[Option<i64>],
) -> (r: Vec<(usize, i64)>)
    requires
        enabled_sources.wf(),
        feed.active_filters.wf(),
        library_ok@.len() == items@.len(),
        item_tags@.len() == items@.len(),
        scores@.len() == items@.len(),
        *scope == feed_scope_spec(*feed, *browse),
        searching == (parse_spec(feed.search_query@) != empty_query()),
    ensures
        r@ == survivors(
            items@,
            feed_inputs(*feed, *browse, enabled_sources@, library_ok@, item_tags@, scores@),
            items@.len() as int,
        ),
{
    let ghost inp = feed_inputs(*feed, *browse, enabled_sources@, library_ok@, item_tags@, scores@);
    let n = items.len();
    let mut scored: Vec<(usize, i64)> = Vec::new();
    let mut i: usize = 0;
    while i < n
        invariant
            n == items@.len(),
            i <= n,
            enabled_sources.wf(),
            feed.active_filters.wf(),
            library_ok@.len() == n,
            item_tags@.len() == n,
            scores@.len() == n,
            inp == feed_inputs(*feed, *browse, enabled_sources@, library_ok@, item_tags@, scores@),
            searching == inp.searching,
            *scope == feed_scope_spec(*feed, *browse),
            scored@ == survivors(items@, inp, i as int),
        decreases n - i,
    {
        if item_passes(items, i, feed, browse, scope, enabled_sources, library_ok, item_tags, scores) {
            if !searching {
                scored.push((i, 0));
            } else {
                match scores[i] {
                    Some(sc) => {
                        scored.push((i, sc));
                    },
                    None => {},
                }
            }
        }
        i += 1;
    }
    scored
}

fn positions_of(scored: &Vec<(usize, i64)>) -> (r: Vec<usize>)
    ensures
        r@ == positions(scored@),
{
    let mut r: Vec<usize> = Vec::new();
    let mut j: usize = 0;
    while j < scored.len()
        invariant
            j <= scored@.len(),
            r@ == positions(scored@).take(j as int),
        decreases scored@.len() - j,
    {
        r.push(scored[j].0);
        proof {
            assert(positions(scored@).take(j + 1) =~= positions(scored@).take(j as int).push(
                scored@[j as int].0,
            ));
        }
        j += 1;
    }
    assert(positions(scored@).take(scored@.len() as int) =~= positions(scored@));
    r
}

/// The indices into the active tab's item list that the feed pane shows,
/// in display order. `library_ok`, `item_tags` and `scores` are aligned
/// with that list (see the module docs). On the Trending sort the cutoff
/// date is today's minus the trending window.
pub fn visible_indices_for(
    workspace: &Workspace,
    feed: &FeedModel,
    discovery: &DiscoveryModel,
    browse: &BrowseModel,
    enabled_sources: &StrMap<bool>,
    library_ok: &[bool],
    item_tags: &[Vec<String>],
    scores: &[Option<i64>],
) -> (r: Vec<usize>)
    requires
        enabled_sources.wf(),
        feed.active_filters.wf(),
        year_bounds_fit(feed.search_query@),
        library_ok@.len() == items_for_tab_spec(*workspace, *feed, *discovery).len(),
        item_tags@.len() == items_for_tab_spec(*workspace, *feed, *discovery).len(),
        scores@.len() == items_for_tab_spec(*workspace, *feed, *discovery).len(),
    ensures
        ({
            let items = items_for_tab_spec(*workspace, *feed, *discovery);
            let inp = feed_inputs(
                *feed,
                *browse,
                enabled_sources@,
                library_ok@,
                item_tags@,
                scores@,
            );
            &&& (inp.searching || feed.sort_mode != FeedSortMode::Trending) ==> r@ == visible_spec(
                items,
                inp,
                feed.sort_mode,
                feed.random_seed,
                Seq::empty(),
            )
            &&& exists|cutoff: Seq<char>|
                r@ == visible_spec(items, inp, feed.sort_mode, feed.random_seed, cutoff)
        }),
{
    let items = items_for_tab(workspace, feed, discovery);
    let query = Query::parse(feed.search_query.as_str());
    let searching = !query.is_empty();
    let ghost inp = feed_inputs(*feed, *browse, enabled_sources@, library_ok@, item_tags@, scores@);
    proof {
        if !searching {
            assert(query@.free =~= Seq::<Seq<char>>::empty());
            assert(query@.title =~= Seq::<Seq<char>>::empty());
            assert(query@.author =~= Seq::<Seq<char>>::empty());
            assert(query@.summary =~= Seq::<Seq<char>>::empty());
            assert(query@.category =~= Seq::<Seq<char>>::empty());
        }
    }
    let scope: Option<SubjectScope> = if feed.feed_tab == FeedTab::Browse && feed.subject_follow
        && browse.rail_path.len() > 0 {
        Some(subject_follow_scope(browse))
    } else {
        None
    };
    let scored = collect_survivors(
        items,
        feed,
        browse,
        &scope,
        searching,
        enabled_sources,
        library_ok,
        item_tags,
        scores,
    );
    proof {
        lemma_survivors_in_range(items@, inp, items@.len() as int);
    }
    if searching {
        let r = rank_by_score(scored);
        assert(r@ == visible_spec(items@, inp, feed.sort_mode, feed.random_seed, Seq::empty()));
        r
    } else {
        let mut indices = positions_of(&scored);
        assert(in_range(indices@, items@));
        let ghost pre = indices@;
        apply_sort_mode(&mut indices, items, feed.sort_mode, feed.random_seed);
        proof {
            if feed.sort_mode == FeedSortMode::Trending {
                let c = choose|c: Seq<char>| indices@ == trending_spec(pre, items@, c);
                assert(indices@ == visible_spec(items@, inp, feed.sort_mode, feed.random_seed, c));
            } else {
                assert(indices@ == visible_spec(
                    items@,
                    inp,
                    feed.sort_mode,
                    feed.random_seed,
                    Seq::empty(),
                ));
            }
        }
        indices
    }
}

} // verus!
