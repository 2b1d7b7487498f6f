//! Library bulk-select: in visual mode the selection is the set of URLs of
//! the visible rows between the anchor and the cursor. Moving the cursor
//! updates the set at its two boundaries only.

use vstd::prelude::*;

use crate::collections::StrSet;
use crate::feed::{
    gesture_state, gesture_state_spec, lemma_url_position_found, row_below, select_row,
    url_position, url_position_from, with_state, FeedModel,
};
use crate::models::{FeedItem, WorkflowState};
use crate::state::discovery::DiscoveryModel;
use crate::workspace::Workspace;
use crate::primitives::list_state::clamp_selection;
use crate::source_names::has_name;

verus! {

/// URL of visible row `k`.
pub open spec fn url_at(visible: Seq<usize>, items: Seq<FeedItem>, k: int) -> Seq<char> {
    items[visible[k] as int].url@
}

/// Every visible row names an item.
pub open spec fn rows_in_range(visible: Seq<usize>, items: Seq<FeedItem>) -> bool {
    forall|k: int| 0 <= k < visible.len() ==> (#[trigger] visible[k] as int) < items.len()
}

/// No two visible rows carry the same URL.
pub open spec fn distinct_row_urls(visible: Seq<usize>, items: Seq<FeedItem>) -> bool {
    forall|i: int, j: int|
        0 <= i < visible.len() && 0 <= j < visible.len() && i != j ==> #[trigger] url_at(
            visible,
            items,
            i,
        ) != #[trigger] url_at(visible, items, j)
}

/// URLs of the visible rows `a..b` (rows past the end are ignored).
pub open spec fn window_urls(visible: Seq<usize>, items: Seq<FeedItem>, a: int, b: int) -> Set<
    Seq<char>,
> {
    Set::new(
        |u: Seq<char>|
            exists|k: int|
                a <= k < b && 0 <= k < visible.len() && #[trigger] url_at(visible, items, k) == u,
    )
}

pub open spec fn min_i(x: int, y: int) -> int {
    if x <= y {
        x
    } else {
        y
    }
}

pub open spec fn max_i(x: int, y: int) -> int {
    if x >= y {
        x
    } else {
        y
    }
}

/// The selection of the rows between `anchor` and `cursor`, both included.
pub open spec fn span_urls(visible: Seq<usize>, items: Seq<FeedItem>, anchor: int, cursor: int) -> Set<
    Seq<char>,
> {
    window_urls(visible, items, min_i(cursor, anchor), max_i(cursor, anchor) + 1)
}

/// `s` after the cursor moved from `old_c` to `new_c`: the rows that left
/// the anchor–cursor span are removed, then the rows that entered it are
/// added.
pub open spec fn extended_urls(
    s: Set<Seq<char>>,
    visible: Seq<usize>,
    items: Seq<FeedItem>,
    anchor: int,
    old_c: int,
    new_c: int,
) -> Set<Seq<char>> {
    let ol = min_i(old_c, anchor);
    let oh = max_i(old_c, anchor);
    let nl = min_i(new_c, anchor);
    let nh = max_i(new_c, anchor);
    let removed = (if nl > ol {
        window_urls(visible, items, ol, nl)
    } else {
        Set::empty()
    }).union(
        if nh < oh {
            window_urls(visible, items, nh + 1, oh + 1)
        } else {
            Set::empty()
        },
    );
    let added = (if nl < ol {
        window_urls(visible, items, nl, ol)
    } else {
        Set::empty()
    }).union(
        if nh > oh {
            window_urls(visible, items, oh + 1, nh + 1)
        } else {
            Set::empty()
        },
    );
    s.difference(removed).union(added)
}

proof fn lemma_window_step(visible: Seq<usize>, items: Seq<FeedItem>, a: int, k: int)
    requires
        a <= k < visible.len(),
        0 <= k,
    ensures
        window_urls(visible, items, a, k + 1) == window_urls(visible, items, a, k).insert(
            url_at(visible, items, k),
        ),
{
    let w1 = window_urls(visible, items, a, k + 1);
    let w0 = window_urls(visible, items, a, k).insert(url_at(visible, items, k));
    assert forall|u: Seq<char>| w1.contains(u) == w0.contains(u) by {
        if w1.contains(u) {
            let j = choose|j: int|
                a <= j < k + 1 && 0 <= j < visible.len() && #[trigger] url_at(visible, items, j) == u;
            if j < k {
                assert(window_urls(visible, items, a, k).contains(u));
            }
        }
        if window_urls(visible, items, a, k).contains(u) {
            let j = choose|j: int|
                a <= j < k && 0 <= j < visible.len() && #[trigger] url_at(visible, items, j) == u;
            assert(a <= j < k + 1);
        }
    }
    assert(w1 =~= w0);
}

proof fn lemma_has_name_push(v: Seq<String>, x: String, u: Seq<char>)
    ensures
        has_name(v.push(x), u) <==> (has_name(v, u) || u == x@),
{
    let w = v.push(x);
    if has_name(w, u) {
        let i = choose|i: int| 0 <= i < w.len() && #[trigger] w[i]@ == u;
        if i < v.len() {
            assert(w[i] == v[i]);
        }
    }
    if has_name(v, u) {
        let i = choose|i: int| 0 <= i < v.len() && #[trigger] v[i]@ == u;
        assert(w[i] == v[i]);
    }
    if u == x@ {
        assert(w[v.len() as int]@ == u);
    }
}

/// The URLs of visible rows `a..b`, in row order.
fn window_url_list(visible: &[usize], items: &[FeedItem], a: usize, b: usize) -> (v: Vec<String>)
    requires
        rows_in_range(visible@, items@),
    ensures
        forall|u: Seq<char>| has_name(v@, u) <==> window_urls(visible@, items@, a as int, b as int).contains(u),
{
    let mut v: Vec<String> = Vec::new();
    let end = if b < visible.len() {
        b
    } else {
        visible.len()
    };
    let mut k: usize = a;
    assert(window_urls(visible@, items@, a as int, a as int) =~= Set::<Seq<char>>::empty());
    while k < end
        invariant
            a <= k,
            k <= end || k == a,
            end == b || end == visible@.len(),
            end <= visible@.len(),
            end <= b,
            rows_in_range(visible@, items@),
            forall|u: Seq<char>|
                has_name(v@, u) <==> window_urls(visible@, items@, a as int, k as int).contains(u),
        decreases end - k,
    {
        let ghost before = v@;
        let idx = visible[k];
        let url = items[idx].url.clone();
        proof {
            lemma_window_step(visible@, items@, a as int, k as int);
            assert forall|u: Seq<char>| has_name(before.push(url), u) <==> window_urls(
                visible@,
                items@,
                a as int,
                k + 1,
            ).contains(u) by {
                lemma_has_name_push(before, url, u);
            }
        }
        v.push(url);
        k = k + 1;
    }
    assert forall|u: Seq<char>| window_urls(visible@, items@, a as int, b as int).contains(u)
        implies window_urls(visible@, items@, a as int, k as int).contains(u) by {
        let j = choose|j: int|
            a <= j < b && 0 <= j < visible@.len() && #[trigger] url_at(visible@, items@, j) == u;
        assert(j < k);
    }
    assert forall|u: Seq<char>| window_urls(visible@, items@, a as int, k as int).contains(u)
        implies window_urls(visible@, items@, a as int, b as int).contains(u) by {
        let j = choose|j: int|
            a <= j < k && 0 <= j < visible@.len() && #[trigger] url_at(visible@, items@, j) == u;
        assert(j < b);
    }
    assert(window_urls(visible@, items@, a as int, k as int) =~= window_urls(
        visible@,
        items@,
        a as int,
        b as int,
    ));
    v
}

/// Remove every listed URL from `set`.
fn remove_all(set: &mut StrSet, urls: &Vec<String>)
    requires
        old(set).wf(),
    ensures
        final(set).wf(),
        final(set)@ == old(set)@.difference(Set::new(|u: Seq<char>| has_name(urls@, u))),
{
    let mut i: usize = 0;
    while i < urls.len()
        invariant
            i <= urls@.len(),
            set.wf(),
            set@ == old(set)@.difference(
                Set::new(|u: Seq<char>| exists|j: int| 0 <= j < i && #[trigger] urls@[j]@ == u),
            ),
        decreases urls@.len() - i,
    {
        set.remove(urls[i].as_str());
        assert(set@ =~= old(set)@.difference(
            Set::new(|u: Seq<char>| exists|j: int| 0 <= j < i + 1 && #[trigger] urls@[j]@ == u),
        ));
        i = i + 1;
    }
    assert(set@ =~= old(set)@.difference(Set::new(|u: Seq<char>| has_name(urls@, u))));
}

/// Insert every listed URL into `set`.
fn insert_all(set: &mut StrSet, urls: &Vec<String>)
    requires
        old(set).wf(),
    ensures
        final(set).wf(),
        final(set)@ == old(set)@.union(Set::new(|u: Seq<char>| has_name(urls@, u))),
{
    let mut i: usize = 0;
    while i < urls.len()
        invariant
            i <= urls@.len(),
            set.wf(),
            set@ == old(set)@.union(
                Set::new(|u: Seq<char>| exists|j: int| 0 <= j < i && #[trigger] urls@[j]@ == u),
            ),
        decreases urls@.len() - i,
    {
        set.insert(urls[i].clone());
        assert(set@ =~= old(set)@.union(
            Set::new(|u: Seq<char>| exists|j: int| 0 <= j < i + 1 && #[trigger] urls@[j]@ == u),
        ));
        i = i + 1;
    }
    assert(set@ =~= old(set)@.union(Set::new(|u: Seq<char>| has_name(urls@, u))));
}

/// The visible rows `a..b` as a URL list, or nothing when `keep` is false.
fn window_if(keep: bool, visible: &[usize], items: &[FeedItem], a: usize, b: usize) -> (v: Vec<
    String,
>)
    requires
        rows_in_range(visible@, items@),
    ensures
        Set::new(|u: Seq<char>| has_name(v@, u)) == if keep {
            window_urls(visible@, items@, a as int, b as int)
        } else {
            Set::empty()
        },
{
    if keep {
        let v = window_url_list(visible, items, a, b);
        assert(Set::new(|u: Seq<char>| has_name(v@, u)) =~= window_urls(
            visible@,
            items@,
            a as int,
            b as int,
        ));
        v
    } else {
        let v: Vec<String> = Vec::new();
        assert(Set::new(|u: Seq<char>| has_name(v@, u)) =~= Set::<Seq<char>>::empty());
        v
    }
}

/// The end of the rows up to and including `hi`, clamped to `n` rows.
fn row_end(hi: usize, n: usize) -> (r: usize)
    ensures
        r == min_i(hi + 1, n as int),
{
    if hi < n {
        hi + 1
    } else {
        n
    }
}

proof fn lemma_window_clip(visible: Seq<usize>, items: Seq<FeedItem>, a: int, b: int)
    ensures
        window_urls(visible, items, a, min_i(b, visible.len() as int)) == window_urls(
            visible,
            items,
            a,
            b,
        ),
        window_urls(
            visible,
            items,
            min_i(a, visible.len() as int),
            min_i(b, visible.len() as int),
        ) == window_urls(visible, items, a, b),
{
    assert(window_urls(visible, items, a, min_i(b, visible.len() as int)) =~= window_urls(
        visible,
        items,
        a,
        b,
    ));
    assert(window_urls(
        visible,
        items,
        min_i(a, visible.len() as int),
        min_i(b, visible.len() as int),
    ) =~= window_urls(visible, items, a, b));
}

impl FeedModel {
    /// In visual mode, select exactly the URLs of the visible rows between
    /// the anchor and the cursor; outside it, select nothing. `visible` lists
    /// the Library tab's visible item indices into `items`, in row order.
    pub fn library_recompute_selection(&mut self, visible: &[usize], items: &[FeedItem])
        requires
            rows_in_range(visible@, items@),
        ensures
            final(self).library_selected_urls.wf(),
            final(self).library_selected_urls@ == if old(self).library_visual_mode {
                span_urls(
                    visible@,
                    items@,
                    old(self).library_visual_anchor as int,
                    old(self).library_list@.selected as int,
                )
            } else {
                Set::empty()
            },
            *final(self) == (FeedModel {
                library_selected_urls: final(self).library_selected_urls,
                ..*old(self)
            }),
    {
        if !self.library_visual_mode {
            self.library_selected_urls.clear();
            return;
        }
        let cursor = self.library_list.selected();
        let anchor = self.library_visual_anchor;
        let lo = if cursor <= anchor {
            cursor
        } else {
            anchor
        };
        let hi = if cursor <= anchor {
            anchor
        } else {
            cursor
        };
        let end = row_end(hi, visible.len());
        proof {
            lemma_window_clip(visible@, items@, lo as int, hi + 1);
        }
        let urls = window_url_list(visible, items, lo, end);
        let mut set = StrSet::new();
        insert_all(&mut set, &urls);
        assert(set@ =~= span_urls(visible@, items@, anchor as int, cursor as int));
        self.library_selected_urls = set;
    }

    /// Move the visual-mode cursor to `new_cursor`, updating the selection
    /// at the span's boundaries only (see [`extended_urls`]); outside visual
    /// mode only the cursor moves. The list's row count is synced to the
    /// visible rows first, so the old cursor is clamped to them.
    pub fn library_extend_selection(
        &mut self,
        new_cursor: usize,
        visible: &[usize],
        items: &[FeedItem],
    )
        requires
            old(self).library_selected_urls.wf(),
            rows_in_range(visible@, items@),
        ensures
            final(self).library_selected_urls.wf(),
            final(self).library_list@ == select_row(
                old(self).library_list@,
                visible@.len(),
                new_cursor as nat,
            ),
            final(self).library_selected_urls@ == if old(self).library_visual_mode {
                extended_urls(
                    old(self).library_selected_urls@,
                    visible@,
                    items@,
                    old(self).library_visual_anchor as int,
                    clamp_selection(old(self).library_list@.selected, visible@.len()) as int,
                    new_cursor as int,
                )
            } else {
                old(self).library_selected_urls@
            },
            *final(self) == (FeedModel {
                library_list: final(self).library_list,
                library_selected_urls: final(self).library_selected_urls,
                ..*old(self)
            }),
    {
        let count = visible.len();
        self.library_list.set_count(count);
        if !self.library_visual_mode {
            self.library_list.set_selected(new_cursor);
            return;
        }
        let anchor = self.library_visual_anchor;
        let old_cursor = self.library_list.selected();
        let old_lo = if old_cursor <= anchor {
            old_cursor
        } else {
            anchor
        };
        let old_hi = if old_cursor <= anchor {
            anchor
        } else {
            old_cursor
        };
        let new_lo = if new_cursor <= anchor {
            new_cursor
        } else {
            anchor
        };
        let new_hi = if new_cursor <= anchor {
            anchor
        } else {
            new_cursor
        };
        let old_end = row_end(old_hi, count);
        let new_end = row_end(new_hi, count);
        proof {
            lemma_window_clip(visible@, items@, new_hi + 1, old_hi + 1);
            lemma_window_clip(visible@, items@, old_hi + 1, new_hi + 1);
        }
        let r1 = window_if(new_lo > old_lo, visible, items, old_lo, new_lo);
        let r2 = window_if(new_hi < old_hi, visible, items, new_end, old_end);
        let a1 = window_if(new_lo < old_lo, visible, items, new_lo, old_lo);
        let a2 = window_if(new_hi > old_hi, visible, items, old_end, new_end);
        remove_all(&mut self.library_selected_urls, &r1);
        remove_all(&mut self.library_selected_urls, &r2);
        insert_all(&mut self.library_selected_urls, &a1);
        insert_all(&mut self.library_selected_urls, &a2);
        self.library_list.set_selected(new_cursor);
        proof {
            let s0 = old(self).library_selected_urls@;
            let w = extended_urls(
                s0,
                visible@,
                items@,
                anchor as int,
                old_cursor as int,
                new_cursor as int,
            );
            assert(self.library_selected_urls@ =~= w);
        }
    }
}

proof fn lemma_window_member(
    visible: Seq<usize>,
    items: Seq<FeedItem>,
    x: int,
    y: int,
    k: int,
    u: Seq<char>,
)
    requires
        distinct_row_urls(visible, items),
        0 <= k < visible.len(),
        url_at(visible, items, k) == u,
    ensures
        window_urls(visible, items, x, y).contains(u) <==> (x <= k < y),
{
    if window_urls(visible, items, x, y).contains(u) {
        let j = choose|j: int|
            x <= j < y && 0 <= j < visible.len() && #[trigger] url_at(visible, items, j) == u;
        if j != k {
            assert(url_at(visible, items, j) != url_at(visible, items, k));
        }
    }
}

/// Law: when no two visible rows share a URL, moving the cursor with the
/// boundary update gives exactly the selection that recomputing the whole
/// anchor–cursor span would give.
pub proof fn lemma_extend_matches_recompute(
    visible: Seq<usize>,
    items: Seq<FeedItem>,
    anchor: int,
    old_c: int,
    new_c: int,
)
    requires
        distinct_row_urls(visible, items),
        0 <= anchor,
        0 <= old_c,
        0 <= new_c,
    ensures
        extended_urls(span_urls(visible, items, anchor, old_c), visible, items, anchor, old_c, new_c)
            == span_urls(visible, items, anchor, new_c),
{
    let lhs = extended_urls(
        span_urls(visible, items, anchor, old_c),
        visible,
        items,
        anchor,
        old_c,
        new_c,
    );
    let rhs = span_urls(visible, items, anchor, new_c);
    let ol = min_i(old_c, anchor);
    let oh = max_i(old_c, anchor);
    let nl = min_i(new_c, anchor);
    let nh = max_i(new_c, anchor);
    assert forall|u: Seq<char>| lhs.contains(u) == rhs.contains(u) by {
        if exists|k: int| 0 <= k < visible.len() && #[trigger] url_at(visible, items, k) == u {
            let k = choose|k: int| 0 <= k < visible.len() && #[trigger] url_at(visible, items, k) == u;
            lemma_window_member(visible, items, ol, oh + 1, k, u);
            lemma_window_member(visible, items, nl, nh + 1, k, u);
            lemma_window_member(visible, items, ol, nl, k, u);
            lemma_window_member(visible, items, nh + 1, oh + 1, k, u);
            lemma_window_member(visible, items, nl, ol, k, u);
            lemma_window_member(visible, items, oh + 1, nh + 1, k, u);
        } else {
            assert(!span_urls(visible, items, anchor, old_c).contains(u));
            assert(!window_urls(visible, items, nl, ol).contains(u));
            assert(!window_urls(visible, items, oh + 1, nh + 1).contains(u));
            assert(!rhs.contains(u));
        }
    }
    assert(lhs =~= rhs);
}


// ── Bulk workflow change ────────────────────────────────────────────────

/// `u` names an item of the corpus or of the discoveries.
pub open spec fn url_found(ws: Seq<FeedItem>, ds: Seq<FeedItem>, u: Seq<char>) -> bool {
    url_position(ws, u) is Some || url_position(ds, u) is Some
}

/// The corpus after setting `st` on the first item of each URL in `sel`.
pub open spec fn bulk_corpus(ws: Seq<FeedItem>, sel: Set<Seq<char>>, st: WorkflowState) -> Seq<
    FeedItem,
> {
    Seq::new(
        ws.len(),
        |k: int|
            if sel.contains(ws[k].url@) && url_position(ws, ws[k].url@) == Some(k) {
                with_state(ws[k], st)
            } else {
                ws[k]
            },
    )
}

/// The discoveries after setting `st` on the first discovered item of each
/// URL in `sel` that the corpus does not hold.
pub open spec fn bulk_discoveries(
    ws: Seq<FeedItem>,
    ds: Seq<FeedItem>,
    sel: Set<Seq<char>>,
    st: WorkflowState,
) -> Seq<FeedItem> {
    Seq::new(
        ds.len(),
        |k: int|
            if sel.contains(ds[k].url@) && url_position(ws, ds[k].url@) is None && url_position(
                ds,
                ds[k].url@,
            ) == Some(k) {
                with_state(ds[k], st)
            } else {
                ds[k]
            },
    )
}

/// The persisted states after recording `st` for each found URL of `sel`.
pub open spec fn bulk_persisted(
    p: Map<Seq<char>, WorkflowState>,
    ws: Seq<FeedItem>,
    ds: Seq<FeedItem>,
    sel: Set<Seq<char>>,
    st: WorkflowState,
) -> Map<Seq<char>, WorkflowState> {
    Map::new(
        |u: Seq<char>| p.dom().contains(u) || (sel.contains(u) && url_found(ws, ds, u)),
        |u: Seq<char>|
            if sel.contains(u) && url_found(ws, ds, u) {
                st
            } else {
                p[u]
            },
    )
}

/// The URLs of `sel` that name an item.
pub open spec fn found_urls(ws: Seq<FeedItem>, ds: Seq<FeedItem>, sel: Set<Seq<char>>) -> Set<
    Seq<char>,
> {
    Set::new(|u: Seq<char>| sel.contains(u) && url_found(ws, ds, u))
}

pub open spec fn same_urls(a: Seq<FeedItem>, b: Seq<FeedItem>) -> bool {
    a.len() == b.len() && forall|k: int| 0 <= k < a.len() ==> (#[trigger] a[k]).url@ == b[k].url@
}

proof fn lemma_same_urls_position(a: Seq<FeedItem>, b: Seq<FeedItem>, u: Seq<char>, i: int)
    requires
        same_urls(a, b),
    ensures
        url_position_from(a, u, i) == url_position_from(b, u, i),
    decreases a.len() - i,
{
    if 0 <= i < a.len() {
        assert(a[i].url@ == b[i].url@);
        lemma_same_urls_position(a, b, u, i + 1);
    }
}

proof fn lemma_bulk_step_corpus(
    ws0: Seq<FeedItem>,
    sel: Set<Seq<char>>,
    u: Seq<char>,
    st: WorkflowState,
)
    ensures
        same_urls(bulk_corpus(ws0, sel, st), ws0),
        match url_position(ws0, u) {
            Some(p) => bulk_corpus(ws0, sel.insert(u), st) == bulk_corpus(ws0, sel, st).update(
                p,
                with_state(bulk_corpus(ws0, sel, st)[p], st),
            ),
            None => bulk_corpus(ws0, sel.insert(u), st) == bulk_corpus(ws0, sel, st),
        },
{
    let b0 = bulk_corpus(ws0, sel, st);
    let b1 = bulk_corpus(ws0, sel.insert(u), st);
    lemma_url_position_found(ws0, u, 0);
    match url_position(ws0, u) {
        Some(p) => {
            let w = b0.update(p, with_state(b0[p], st));
            assert forall|k: int| 0 <= k < b1.len() implies b1[k] == w[k] by {
                if k != p && ws0[k].url@ == u {
                    assert(url_position(ws0, ws0[k].url@) != Some(k));
                }
            }
            assert(b1 =~= w);
        },
        None => {
            assert forall|k: int| 0 <= k < b1.len() implies b1[k] == b0[k] by {
                if ws0[k].url@ == u {
                    assert(url_position(ws0, ws0[k].url@) != Some(k));
                }
            }
            assert(b1 =~= b0);
        },
    }
}

proof fn lemma_bulk_step_discoveries(
    ws0: Seq<FeedItem>,
    ds0: Seq<FeedItem>,
    sel: Set<Seq<char>>,
    u: Seq<char>,
    st: WorkflowState,
)
    ensures
        same_urls(bulk_discoveries(ws0, ds0, sel, st), ds0),
        url_position(ws0, u) is Some ==> bulk_discoveries(ws0, ds0, sel.insert(u), st)
            == bulk_discoveries(ws0, ds0, sel, st),
        url_position(ws0, u) is None ==> match url_position(ds0, u) {
            Some(p) => bulk_discoveries(ws0, ds0, sel.insert(u), st) == bulk_discoveries(
                ws0,
                ds0,
                sel,
                st,
            ).update(p, with_state(bulk_discoveries(ws0, ds0, sel, st)[p], st)),
            None => bulk_discoveries(ws0, ds0, sel.insert(u), st) == bulk_discoveries(
                ws0,
                ds0,
                sel,
                st,
            ),
        },
{
    let b0 = bulk_discoveries(ws0, ds0, sel, st);
    let b1 = bulk_discoveries(ws0, ds0, sel.insert(u), st);
    lemma_url_position_found(ds0, u, 0);
    if url_position(ws0, u) is Some {
        assert forall|k: int| 0 <= k < b1.len() implies b1[k] == b0[k] by {}
        assert(b1 =~= b0);
    } else {
        match url_position(ds0, u) {
            Some(p) => {
                let w = b0.update(p, with_state(b0[p], st));
                assert forall|k: int| 0 <= k < b1.len() implies b1[k] == w[k] by {
                    if k != p && ds0[k].url@ == u {
                        assert(url_position(ds0, ds0[k].url@) != Some(k));
                    }
                }
                assert(b1 =~= w);
            },
            None => {
                assert forall|k: int| 0 <= k < b1.len() implies b1[k] == b0[k] by {
                    if ds0[k].url@ == u {
                        assert(url_position(ds0, ds0[k].url@) != Some(k));
                    }
                }
                assert(b1 =~= b0);
            },
        }
    }
}

/// The URLs among the first `i` entries of `v`.
pub open spec fn prefix_set(v: Seq<String>, i: int) -> Set<Seq<char>> {
    Set::new(|u: Seq<char>| exists|j: int| 0 <= j < i && #[trigger] v[j]@ == u)
}

impl FeedModel {
    /// Set workflow state `state` on every URL of the library selection
    /// (see [`FeedModel::set_workflow_state_for_url`]) and return how many
    /// of them named an item. Saving the persisted states is the caller's.
    pub fn apply_workflow_to_selection(
        &mut self,
        workspace: &mut Workspace,
        discovery: &mut DiscoveryModel,
        state: WorkflowState,
    ) -> (n: usize)
        requires
            old(self).library_selected_urls.wf(),
            old(workspace).wf(),
        ensures
            final(workspace).wf(),
            *final(self) == *old(self),
            ({
                let sel = old(self).library_selected_urls@;
                let ws = old(workspace).items_store@;
                let ds = old(discovery).items@;
                &&& final(workspace).items_store@ == bulk_corpus(ws, sel, state)
                &&& final(discovery).items@ == bulk_discoveries(ws, ds, sel, state)
                &&& *final(discovery) == (DiscoveryModel {
                    items: final(discovery).items,
                    ..*old(discovery)
                })
                &&& final(workspace).persisted_states@ == bulk_persisted(
                    old(workspace).persisted_states@,
                    ws,
                    ds,
                    sel,
                    state,
                )
                &&& found_urls(ws, ds, sel).finite()
                &&& n == found_urls(ws, ds, sel).len()
            }),
    {
        let urls = self.library_selected_urls.to_vec();
        let ghost ws0 = workspace.items_store@;
        let ghost ds0 = discovery.items@;
        let ghost p0 = workspace.persisted_states@;
        let ghost sel = self.library_selected_urls@;
        let mut count: usize = 0;
        let mut i: usize = 0;
        proof {
            assert(prefix_set(urls@, 0) =~= Set::<Seq<char>>::empty());
            assert(bulk_corpus(ws0, Set::empty(), state) =~= ws0);
            assert(bulk_discoveries(ws0, ds0, Set::empty(), state) =~= ds0);
            assert(bulk_persisted(p0, ws0, ds0, Set::empty(), state) =~= p0);
            assert(found_urls(ws0, ds0, Set::empty()) =~= Set::<Seq<char>>::empty());
        }
        while i < urls.len()
            invariant
                i <= urls@.len(),
                forall|a: int, b: int|
                    0 <= a < urls@.len() && 0 <= b < urls@.len() && a != b ==> (
                    #[trigger] urls@[a])@ != (#[trigger] urls@[b])@,
                forall|u: Seq<char>|
                    sel.contains(u) <==> exists|a: int| 0 <= a < urls@.len() && (#[trigger] urls@[a])@ == u,
                *self == *old(self),
                sel == old(self).library_selected_urls@,
                ws0 == old(workspace).items_store@,
                ds0 == old(discovery).items@,
                p0 == old(workspace).persisted_states@,
                workspace.wf(),
                workspace.items_store@ == bulk_corpus(ws0, prefix_set(urls@, i as int), state),
                discovery.items@ == bulk_discoveries(ws0, ds0, prefix_set(urls@, i as int), state),
                *discovery == (DiscoveryModel { items: discovery.items, ..*old(discovery) }),
                workspace.persisted_states@ == bulk_persisted(
                    p0,
                    ws0,
                    ds0,
                    prefix_set(urls@, i as int),
                    state,
                ),
                found_urls(ws0, ds0, prefix_set(urls@, i as int)).finite(),
                count == found_urls(ws0, ds0, prefix_set(urls@, i as int)).len(),
                count <= i,
            decreases urls@.len() - i,
        {
            let ghost pre = prefix_set(urls@, i as int);
            let ghost u = urls@[i as int]@;
            proof {
                assert(prefix_set(urls@, i + 1) =~= pre.insert(u));
                assert(!pre.contains(u));
                lemma_bulk_step_corpus(ws0, pre, u, state);
                lemma_bulk_step_discoveries(ws0, ds0, pre, u, state);
                lemma_same_urls_position(workspace.items_store@, ws0, u, 0);
                lemma_same_urls_position(discovery.items@, ds0, u, 0);
                if url_found(ws0, ds0, u) {
                    assert(found_urls(ws0, ds0, pre.insert(u)) =~= found_urls(ws0, ds0, pre).insert(u));
                } else {
                    assert(found_urls(ws0, ds0, pre.insert(u)) =~= found_urls(ws0, ds0, pre));
                }
            }
            let effects = self.set_workflow_state_for_url(
                workspace,
                discovery,
                urls[i].as_str(),
                state,
            );
            if effects.len() > 0 {
                count = count + 1;
            }
            proof {
                assert(workspace.persisted_states@ =~= bulk_persisted(
                    p0,
                    ws0,
                    ds0,
                    pre.insert(u),
                    state,
                ));
            }
            i = i + 1;
        }
        proof {
            assert(prefix_set(urls@, i as int) =~= sel);
        }
        count
    }
}


// ── Keys in visual mode ─────────────────────────────────────────────────

/// A key read by the Library tab in visual mode (`j`/`k` arrive as
/// `Down`/`Up`).
#[derive(Clone, Copy, Debug, PartialEq, Eq, Structural)]
pub enum VisualKey {
    Esc,
    Up,
    Down,
    Char(char),
    Other,
}

/// What a visual-mode key did, for the caller to report.
pub enum VisualOutcome {
    /// The key was consumed (moved, left visual mode, or was ignored).
    Handled,
    /// The selection took this workflow state; so many URLs named an item.
    Applied(WorkflowState, usize),
    /// Tag the selection: these URLs.
    TagTargets(Vec<String>),
}

/// The strings of `v` are exactly the members of `s`.
pub open spec fn lists_exactly(v: Seq<String>, s: Set<Seq<char>>) -> bool {
    forall|u: Seq<char>| s.contains(u) <==> exists|i: int| 0 <= i < v.len() && (#[trigger] v[i])@ == u
}

/// `f1` is `f0` after the visual-mode cursor moved to `nc` over the rows
/// `visible` of `items` (see [`FeedModel::library_extend_selection`]).
pub open spec fn moved_in_visual(
    f0: FeedModel,
    f1: FeedModel,
    visible: Seq<usize>,
    items: Seq<FeedItem>,
    nc: nat,
) -> bool {
    let len = visible.len();
    &&& f1.library_list@ == select_row(f0.library_list@, len, nc)
    &&& f1.library_selected_urls@ == if f0.library_visual_mode {
        extended_urls(
            f0.library_selected_urls@,
            visible,
            items,
            f0.library_visual_anchor as int,
            clamp_selection(f0.library_list@.selected, len) as int,
            nc as int,
        )
    } else {
        f0.library_selected_urls@
    }
    &&& f1 == (FeedModel {
        library_list: f1.library_list,
        library_selected_urls: f1.library_selected_urls,
        ..f0
    })
}

/// State `st` was set on the whole selection of `f0` (see
/// [`FeedModel::apply_workflow_to_selection`]) and visual mode left.
pub open spec fn applied_in_visual(
    f0: FeedModel,
    f1: FeedModel,
    w0: Workspace,
    w1: Workspace,
    d0: DiscoveryModel,
    d1: DiscoveryModel,
    st: WorkflowState,
    r: VisualOutcome,
) -> bool {
    let ws = w0.items_store@;
    let ds = d0.items@;
    let picked = f0.library_selected_urls@;
    &&& r matches VisualOutcome::Applied(s, n) && s == st && n == found_urls(ws, ds, picked).len()
    &&& w1.items_store@ == bulk_corpus(ws, picked, st)
    &&& d1.items@ == bulk_discoveries(ws, ds, picked, st)
    &&& d1 == (DiscoveryModel { items: d1.items, ..d0 })
    &&& w1.persisted_states@ == bulk_persisted(w0.persisted_states@, ws, ds, picked, st)
    &&& f1 == (FeedModel {
        library_visual_mode: false,
        library_visual_anchor: 0,
        library_selected_urls: f1.library_selected_urls,
        ..f0
    })
    &&& f1.library_selected_urls@ == Set::<Seq<char>>::empty()
}

impl FeedModel {
    /// A key in Library visual mode over the visible rows `visible` (indices
    /// into the corpus): `Esc` leaves visual mode; `Down`/`Up` move the
    /// cursor one row (stopping at the ends) extending the selection; a
    /// workflow gesture key (see [`gesture_state`]) sets that state on the
    /// whole selection and leaves visual mode; `t` hands the selection out
    /// for tagging; every other key is swallowed.
    pub fn library_visual_key(
        &mut self,
        key: VisualKey,
        visible: &[usize],
        workspace: &mut Workspace,
        discovery: &mut DiscoveryModel,
    ) -> (r: VisualOutcome)
        requires
            old(self).library_selected_urls.wf(),
            old(workspace).wf(),
            rows_in_range(visible@, old(workspace).items_store@),
        ensures
            final(workspace).wf(),
            final(self).library_selected_urls.wf(),
            key == VisualKey::Esc ==> r is Handled && *final(self) == (FeedModel {
                library_visual_mode: false,
                library_visual_anchor: 0,
                library_selected_urls: final(self).library_selected_urls,
                ..*old(self)
            }) && final(self).library_selected_urls@ == Set::<Seq<char>>::empty()
                && *final(workspace) == *old(workspace) && *final(discovery) == *old(discovery),
            key == VisualKey::Down && visible@.len() == 0 ==> r is Handled && *final(self) == *old(
                self,
            ) && *final(workspace) == *old(workspace) && *final(discovery) == *old(discovery),
            (key == VisualKey::Up || (key == VisualKey::Down && visible@.len() > 0)) ==> moved_in_visual(
                *old(self),
                *final(self),
                visible@,
                old(workspace).items_store@,
                if key == VisualKey::Down {
                    row_below(old(self).library_list@.selected, visible@.len())
                } else if old(self).library_list@.selected > 0 {
                    (old(self).library_list@.selected - 1) as nat
                } else {
                    0
                },
            ) && r is Handled && *final(workspace) == *old(workspace) && *final(discovery) == *old(
                discovery,
            ),
            key matches VisualKey::Char(c) ==> gesture_state_spec(c) is Some ==> applied_in_visual(
                *old(self),
                *final(self),
                *old(workspace),
                *final(workspace),
                *old(discovery),
                *final(discovery),
                gesture_state_spec(c).unwrap(),
                r,
            ),
            key == VisualKey::Char('t') ==> (r matches VisualOutcome::TagTargets(v) && lists_exactly(
                v@,
                old(self).library_selected_urls@,
            )),
            key == VisualKey::Char('t') ==> *final(self) == *old(self),
            key == VisualKey::Char('t') ==> *final(workspace) == *old(workspace) && *final(discovery)
                == *old(discovery),
            key == VisualKey::Other ==> r is Handled && *final(self) == *old(self)
                && *final(workspace) == *old(workspace) && *final(discovery) == *old(discovery),
            key matches VisualKey::Char(c) ==> (gesture_state_spec(c) is None && c != 't') ==> r is Handled
                && *final(self) == *old(self) && *final(workspace) == *old(workspace)
                && *final(discovery) == *old(discovery),
    {
        match key {
            VisualKey::Esc => {
                self.exit_library_visual_mode();
                VisualOutcome::Handled
            },
            VisualKey::Down => {
                let len = visible.len();
                if len > 0 {
                    let cur = self.library_list.selected();
                    let next = if cur < len - 1 {
                        cur + 1
                    } else {
                        len - 1
                    };
                    self.library_extend_selection(next, visible, workspace.items_store.items());
                }
                VisualOutcome::Handled
            },
            VisualKey::Up => {
                let cur = self.library_list.selected();
                let next = if cur > 0 {
                    cur - 1
                } else {
                    0
                };
                self.library_extend_selection(next, visible, workspace.items_store.items());
                VisualOutcome::Handled
            },
            VisualKey::Char(c) => {
                match gesture_state(c) {
                    Some(st) => {
                        let n = self.apply_workflow_to_selection(workspace, discovery, st);
                        self.exit_library_visual_mode();
                        VisualOutcome::Applied(st, n)
                    },
                    None => {
                        if c == 't' {
                            let v = self.library_selected_urls.to_vec();
                            assert(lists_exactly(v@, old(self).library_selected_urls@));
                            VisualOutcome::TagTargets(v)
                        } else {
                            VisualOutcome::Handled
                        }
                    },
                }
            },
            VisualKey::Other => VisualOutcome::Handled,
        }
    }
}

} // verus!
