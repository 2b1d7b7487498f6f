//! `ItemStore` — items plus the two dedup indices that point into them.
//!
//! The store owns the invariant that every entry of `url_index` and of
//! `arxiv_id_index` points at an item whose URL (resp. arXiv id) is that
//! entry's key. Mutation goes through the methods below, which keep it.

use vstd::prelude::*;

use crate::collections::StrMap;
use vstd::std_specs::iter::IteratorSpec;
use crate::feed_order::{lemma_str_lt_irreflexive, lemma_str_lt_transitive, str_less, str_lt};
use crate::models::{arxiv_id_from_url, arxiv_id_spec, FeedItem};

verus! {

/// The URL index a full rebuild produces: each URL maps to the position of
/// its last occurrence.
pub open spec fn url_index_spec(items: Seq<FeedItem>) -> Map<Seq<char>, usize>
    decreases items.len(),
{
    if items.len() == 0 {
        Map::empty()
    } else {
        url_index_spec(items.drop_last()).insert(items.last().url@, (items.len() - 1) as usize)
    }
}

/// The arXiv-id index a full rebuild produces: each arXiv id maps to the
/// position of the last item whose URL carries it.
pub open spec fn arxiv_index_spec(items: Seq<FeedItem>) -> Map<Seq<char>, usize>
    decreases items.len(),
{
    if items.len() == 0 {
        Map::empty()
    } else {
        let prev = arxiv_index_spec(items.drop_last());
        match arxiv_id_spec(items.last().url@) {
            Some(aid) => prev.insert(aid, (items.len() - 1) as usize),
            None => prev,
        }
    }
}

/// See module docs.
pub struct ItemStore {
    items: Vec<FeedItem>,
    url_index: StrMap<usize>,
    arxiv_id_index: StrMap<usize>,
}

impl View for ItemStore {
    type V = Seq<FeedItem>;

    closed spec fn view(&self) -> Seq<FeedItem> {
        self.items@
    }
}

#[verifier::spinoff_prover]
proof fn lemma_url_index_spec_sound(items: Seq<FeedItem>)
    requires
        items.len() <= usize::MAX,
    ensures
        forall|k: Seq<char>| #[trigger]
            url_index_spec(items).dom().contains(k) ==> url_index_spec(items)[k] < items.len()
                && items[url_index_spec(items)[k] as int].url@ == k,
        forall|i: int| 0 <= i < items.len() ==> url_index_spec(items).dom().contains(
            #[trigger] items[i].url@,
        ),
    decreases items.len(),
{
    if items.len() > 0 {
        let p = items.drop_last();
        lemma_url_index_spec_sound(p);
        assert forall|i: int| 0 <= i < items.len() implies url_index_spec(items).dom().contains(
            #[trigger] items[i].url@,
        ) by {
            if i < items.len() - 1 {
                assert(items[i] == p[i]);
            }
        }
        assert forall|k: Seq<char>| #[trigger]
            url_index_spec(items).dom().contains(k) implies url_index_spec(items)[k] < items.len()
            && items[url_index_spec(items)[k] as int].url@ == k by {
            if k != items.last().url@ {
                assert(url_index_spec(p).dom().contains(k));
                assert(url_index_spec(items)[k] == url_index_spec(p)[k]);
                assert(p[url_index_spec(p)[k] as int] == items[url_index_spec(p)[k] as int]);
            } else {
                assert(url_index_spec(items)[k] == items.len() - 1);
            }
        }
    }
}

#[verifier::spinoff_prover]
#[verifier::rlimit(40)]
proof fn lemma_arxiv_index_spec_sound(items: Seq<FeedItem>)
    requires
        items.len() <= usize::MAX,
    ensures
        forall|k: Seq<char>| #[trigger]
            arxiv_index_spec(items).dom().contains(k) ==> arxiv_index_spec(items)[k] < items.len()
                && arxiv_id_spec(items[arxiv_index_spec(items)[k] as int].url@) == Some(k),
    decreases items.len(),
{
    if items.len() > 0 {
        let p = items.drop_last();
        lemma_arxiv_index_spec_sound(p);
        assert forall|k: Seq<char>| #[trigger]
            arxiv_index_spec(items).dom().contains(k) implies arxiv_index_spec(items)[k]
            < items.len() && arxiv_id_spec(items[arxiv_index_spec(items)[k] as int].url@) == Some(k) by {
            match arxiv_id_spec(items.last().url@) {
                Some(aid) => {
                    if k != aid {
                        assert(arxiv_index_spec(p).dom().contains(k));
                        assert(arxiv_index_spec(items)[k] == arxiv_index_spec(p)[k]);
                        assert(p[arxiv_index_spec(p)[k] as int] == items[arxiv_index_spec(p)[k] as int]);
                    } else {
                        assert(arxiv_index_spec(items)[k] == items.len() - 1);
                    }
                },
                None => {
                    assert(arxiv_index_spec(p).dom().contains(k));
                    assert(arxiv_index_spec(items)[k] == arxiv_index_spec(p)[k]);
                    assert(p[arxiv_index_spec(p)[k] as int] == items[arxiv_index_spec(p)[k] as int]);
                },
            }
        }
    }
}

/// The first `k` items.
pub open spec fn take_n(s: Seq<FeedItem>, k: usize) -> Seq<FeedItem> {
    s.take(k as int)
}

/// The items from position `k` on.
pub open spec fn skip_n(s: Seq<FeedItem>, k: usize) -> Seq<FeedItem> {
    s.skip(k as int)
}

/// `s` with `x` inserted at position `p`.
pub open spec fn ins_n(s: Seq<FeedItem>, p: usize, x: FeedItem) -> Seq<FeedItem> {
    s.insert(p as int, x)
}

proof fn lemma_ins_multiset(s: Seq<FeedItem>, p: usize, x: FeedItem)
    requires
        p <= s.len(),
    ensures
        ins_n(s, p, x).to_multiset() == s.to_multiset().insert(x),
{
    vstd::seq_lib::to_multiset_insert(s, p as int, x);
}

/// The item at position `k`.
pub open spec fn at_n(s: Seq<FeedItem>, k: usize) -> FeedItem {
    s[k as int]
}

impl ItemStore {
    /// The URL index, as a map from URL to position.
    pub closed spec fn url_map(&self) -> Map<Seq<char>, usize> {
        self.url_index@
    }

    /// The arXiv-id index, as a map from arXiv id to position.
    pub closed spec fn arxiv_map(&self) -> Map<Seq<char>, usize> {
        self.arxiv_id_index@
    }

    /// Every index entry points at an item carrying its key.
    pub closed spec fn wf(&self) -> bool {
        &&& self.items@.len() <= usize::MAX
        &&& self.url_index.wf()
        &&& self.arxiv_id_index.wf()
        &&& forall|k: Seq<char>| #[trigger]
            self.url_index@.dom().contains(k) ==> self.url_index@[k] < self.items@.len()
                && self.items@[self.url_index@[k] as int].url@ == k
        &&& forall|k: Seq<char>| #[trigger]
            self.arxiv_id_index@.dom().contains(k) ==> self.arxiv_id_index@[k] < self.items@.len()
                && arxiv_id_spec(self.items@[self.arxiv_id_index@[k] as int].url@) == Some(k)
    }

    /// Law: a well-formed store's indices only ever point at matching items.
    pub proof fn lemma_indices_sound(&self)
        requires
            self.wf(),
        ensures
            forall|k: Seq<char>| #[trigger]
                self.url_map().dom().contains(k) ==> self.url_map()[k] < self@.len()
                    && self@[self.url_map()[k] as int].url@ == k,
            forall|k: Seq<char>| #[trigger]
                self.arxiv_map().dom().contains(k) ==> self.arxiv_map()[k] < self@.len()
                    && arxiv_id_spec(self@[self.arxiv_map()[k] as int].url@) == Some(k),
    {
    }

    /// An empty store.
    pub fn new() -> (s: Self)
        ensures
            s.wf(),
            s@ == Seq::<FeedItem>::empty(),
            s.url_map() == Map::<Seq<char>, usize>::empty(),
            s.arxiv_map() == Map::<Seq<char>, usize>::empty(),
    {
        ItemStore { items: Vec::new(), url_index: StrMap::new(), arxiv_id_index: StrMap::new() }
    }

    // ── Reads ───────────────────────────────────────────────────────────
    pub fn len(&self) -> (n: usize)
        ensures
            n == self@.len(),
    {
        self.items.len()
    }

    pub fn is_empty(&self) -> (r: bool)
        ensures
            r == (self@.len() == 0),
    {
        self.items.len() == 0
    }

    pub fn get(&self, idx: usize) -> (r: Option<&FeedItem>)
        ensures
            idx < self@.len() ==> r == Some(&self@[idx as int]),
            idx >= self@.len() ==> r.is_none(),
    {
        if idx < self.items.len() {
            Some(&self.items[idx])
        } else {
            None
        }
    }

    /// Mutable access to the item at `idx`. The indices are left as they
    /// are; the store stays well-formed when the caller keeps the URL.
    pub fn get_mut(&mut self, idx: usize) -> (r: Option<&mut FeedItem>)
        ensures
            idx >= old(self)@.len() ==> r.is_none() && final(self)@ == old(self)@,
            idx < old(self)@.len() ==> r.is_some() && *r.unwrap() == old(self)@[idx as int]
                && final(self)@ == old(self)@.update(idx as int, *final(r.unwrap())),
            final(self).url_map() == old(self).url_map(),
            final(self).arxiv_map() == old(self).arxiv_map(),
            old(self).wf() && (r matches Some(x) ==> (*final(x)).url@ == (*x).url@) ==> final(self).wf(),
    {
        if idx < self.items.len() {
            Some(&mut self.items[idx])
        } else {
            None
        }
    }

    /// Iterator over the items in order.
    pub fn iter(&self) -> (it: std::slice::Iter<'_, FeedItem>)
        ensures
            it.remaining() == self@.as_ref(),
    {
        broadcast use vstd::std_specs::slice::axiom_spec_slice_iter;
        self.items.iter()
    }

    /// Slice view of the items.
    pub fn items(&self) -> (r: &[FeedItem])
        ensures
            r@ == self@,
    {
        self.items.as_slice()
    }

    pub fn find_index_by_url(&self, url: &str) -> (r: Option<usize>)
        requires
            self.wf(),
        ensures
            r == (if self.url_map().dom().contains(url@) {
                Some(self.url_map()[url@])
            } else {
                None
            }),
            r matches Some(i) ==> i < self@.len() && self@[i as int].url@ == url@,
    {
        match self.url_index.get(url) {
            Some(i) => Some(*i),
            None => None,
        }
    }

    pub fn find_by_url(&self, url: &str) -> (r: Option<&FeedItem>)
        requires
            self.wf(),
        ensures
            r == (if self.url_map().dom().contains(url@) {
                Some(&self@[self.url_map()[url@] as int])
            } else {
                None
            }),
    {
        match self.find_index_by_url(url) {
            Some(i) => Some(&self.items[i]),
            None => None,
        }
    }

    pub fn find_index_by_arxiv_id(&self, aid: &str) -> (r: Option<usize>)
        requires
            self.wf(),
        ensures
            r == (if self.arxiv_map().dom().contains(aid@) {
                Some(self.arxiv_map()[aid@])
            } else {
                None
            }),
            r matches Some(i) ==> i < self@.len() && arxiv_id_spec(self@[i as int].url@) == Some(
                aid@,
            ),
    {
        match self.arxiv_id_index.get(aid) {
            Some(i) => Some(*i),
            None => None,
        }
    }

    pub fn find_by_arxiv_id(&self, aid: &str) -> (r: Option<&FeedItem>)
        requires
            self.wf(),
        ensures
            r == (if self.arxiv_map().dom().contains(aid@) {
                Some(&self@[self.arxiv_map()[aid@] as int])
            } else {
                None
            }),
    {
        match self.find_index_by_arxiv_id(aid) {
            Some(i) => Some(&self.items[i]),
            None => None,
        }
    }

    // ── Mutation ────────────────────────────────────────────────────────
    /// Append `item` and index it under its URL and arXiv id (overwriting
    /// earlier entries for the same keys). Returns the new position.
    pub fn push(&mut self, item: FeedItem) -> (idx: usize)
        requires
            old(self).wf(),
        ensures
            final(self).wf(),
            idx == old(self)@.len(),
            final(self)@ == old(self)@.push(item),
            final(self).url_map() == old(self).url_map().insert(item.url@, idx),
            final(self).arxiv_map() == (match arxiv_id_spec(item.url@) {
                Some(aid) => old(self).arxiv_map().insert(aid, idx),
                None => old(self).arxiv_map(),
            }),
            old(self).url_map() == url_index_spec(old(self)@) ==> final(self).url_map()
                == url_index_spec(final(self)@),
            old(self).arxiv_map() == arxiv_index_spec(old(self)@) ==> final(self).arxiv_map()
                == arxiv_index_spec(final(self)@),
    {
        let idx = self.items.len();
        let ghost old_items = self.items@;
        self.url_index.insert(item.url.clone(), idx);
        let aid = arxiv_id_from_url(item.url.as_str());
        match aid {
            Some(a) => {
                self.arxiv_id_index.insert(a, idx);
            },
            None => {},
        }
        self.items.push(item);
        let _n = self.items.len();
        proof {
            let items = self.items@;
            assert(items.drop_last() == old_items);
            assert forall|k: Seq<char>| #[trigger] self.url_index@.dom().contains(k) implies
                self.url_index@[k] < items.len() && items[self.url_index@[k] as int].url@ == k by {
                if k != item.url@ {
                    assert(items[self.url_index@[k] as int] == old_items[self.url_index@[k] as int]);
                }
            }
            assert forall|k: Seq<char>| #[trigger] self.arxiv_id_index@.dom().contains(k) implies
                self.arxiv_id_index@[k] < items.len() && arxiv_id_spec(
                items[self.arxiv_id_index@[k] as int].url@,
            ) == Some(k) by {
                if self.arxiv_id_index@[k] != idx {
                    assert(items[self.arxiv_id_index@[k] as int]
                        == old_items[self.arxiv_id_index@[k] as int]);
                }
            }
        }
        idx
    }

    /// Replace the item at `idx`, moving its index entries from the old
    /// item's keys to the new item's keys. No-op when `idx >= len()`.
    pub fn replace_at(&mut self, idx: usize, item: FeedItem)
        requires
            old(self).wf(),
        ensures
            final(self).wf(),
            idx >= old(self)@.len() ==> final(self)@ == old(self)@ && final(self).url_map()
                == old(self).url_map() && final(self).arxiv_map() == old(self).arxiv_map(),
            idx < old(self)@.len() ==> {
                let old_url = old(self)@[idx as int].url@;
                &&& final(self)@ == old(self)@.update(idx as int, item)
                &&& final(self).url_map() == old(self).url_map().remove(old_url).insert(
                    item.url@,
                    idx,
                )
                &&& final(self).arxiv_map() == ({
                    let m = match arxiv_id_spec(old_url) {
                        Some(a) => old(self).arxiv_map().remove(a),
                        None => old(self).arxiv_map(),
                    };
                    match arxiv_id_spec(item.url@) {
                        Some(a) => m.insert(a, idx),
                        None => m,
                    }
                })
            },
    {
        if idx >= self.items.len() {
            return;
        }
        let ghost old_items = self.items@;
        let ghost old_url = old_items[idx as int].url@;
        let ghost old_umap = self.url_index@;
        let ghost old_amap = self.arxiv_id_index@;
        self.url_index.remove(self.items[idx].url.as_str());
        let old_aid = arxiv_id_from_url(self.items[idx].url.as_str());
        match old_aid {
            Some(a) => {
                self.arxiv_id_index.remove(a.as_str());
            },
            None => {},
        }
        self.url_index.insert(item.url.clone(), idx);
        let new_aid = arxiv_id_from_url(item.url.as_str());
        match new_aid {
            Some(a) => {
                self.arxiv_id_index.insert(a, idx);
            },
            None => {},
        }
        let ghost new_url = item.url@;
        self.items.set(idx, item);
        proof {
            let items = self.items@;
            assert forall|k: Seq<char>| #[trigger] self.url_index@.dom().contains(k) implies
                self.url_index@[k] < items.len() && items[self.url_index@[k] as int].url@ == k by {
                if k != new_url {
                    assert(old_umap.dom().contains(k) && k != old_url);
                    let j = old_umap[k];
                    assert(j != idx);
                    assert(items[j as int] == old_items[j as int]);
                }
            }
            assert forall|k: Seq<char>| #[trigger] self.arxiv_id_index@.dom().contains(k) implies
                self.arxiv_id_index@[k] < items.len() && arxiv_id_spec(
                items[self.arxiv_id_index@[k] as int].url@,
            ) == Some(k) by {
                if self.arxiv_id_index@[k] != idx {
                    assert(items[self.arxiv_id_index@[k] as int]
                        == old_items[self.arxiv_id_index@[k] as int]);
                } else {
                    if !(arxiv_id_spec(new_url) == Some(k)) {
                        assert(old_amap.dom().contains(k));
                        assert(old_amap[k] == idx);
                        assert(arxiv_id_spec(old_url) == Some(k));
                    }
                }
            }
        }
    }

    /// Rebuild both indices from the items, so that every item is found
    /// again under its URL (and arXiv id).
    pub fn rebuild_indices(&mut self)
        requires
            old(self).wf(),
        ensures
            final(self).wf(),
            final(self)@ == old(self)@,
            final(self).url_map() == url_index_spec(final(self)@),
            final(self).arxiv_map() == arxiv_index_spec(final(self)@),
            indices_at_last_occurrence(final(self)@, final(self).url_map(), final(self).arxiv_map()),
    {
        self.url_index.clear();
        self.arxiv_id_index.clear();
        let mut i: usize = 0;
        while i < self.items.len()
            invariant
                i <= self.items@.len(),
                self.items@ == old(self)@,
                self.url_index.wf(),
                self.arxiv_id_index.wf(),
                self.url_index@ == url_index_spec(self.items@.take(i as int)),
                self.arxiv_id_index@ == arxiv_index_spec(self.items@.take(i as int)),
            decreases self.items@.len() - i,
        {
            let ghost pre = self.items@.take(i as int);
            let ghost next = self.items@.take(i + 1);
            assert(next.drop_last() == pre);
            assert(next.last() == self.items@[i as int]);
            self.url_index.insert(self.items[i].url.clone(), i);
            let aid = arxiv_id_from_url(self.items[i].url.as_str());
            match aid {
                Some(a) => {
                    self.arxiv_id_index.insert(a, i);
                },
                None => {},
            }
            i += 1;
        }
        proof {
            assert(self.items@.take(self.items@.len() as int) == self.items@);
            lemma_url_index_spec_sound(self.items@);
            lemma_arxiv_index_spec_sound(self.items@);
            lemma_index_is_last_occurrence(self.items@);
        }
    }

    /// Reorder the items with `compare`, stably (see [`rel_sorted_order`]:
    /// each item goes before the first already-placed item that compares
    /// greater), then rebuild both indices for the new positions. `compare`
    /// must answer the same for the same pair and order items consistently
    /// (`Greater` a strict order), as `slice::sort_by` asks of it.
    pub fn sort_by<F: Fn(&FeedItem, &FeedItem) -> std::cmp::Ordering>(&mut self, compare: F)
        requires
            old(self).wf(),
            forall|a: &FeedItem, b: &FeedItem| #[trigger] compare.requires((a, b)),
            compare_deterministic(compare),
            strict_order(greater_rel(compare)),
        ensures
            final(self).wf(),
            final(self)@ == rel_sorted_order(greater_rel(compare), old(self)@),
            sorted_by_rel(greater_rel(compare), final(self)@),
            final(self)@.to_multiset() == old(self)@.to_multiset(),
            final(self).url_map() == url_index_spec(final(self)@),
            final(self).arxiv_map() == arxiv_index_spec(final(self)@),
    {
        self.url_index.clear();
        self.arxiv_id_index.clear();
        let mut src: Vec<FeedItem> = Vec::new();
        std::mem::swap(&mut src, &mut self.items);
        let ghost orig = src@;
        let n = src.len();
        let mut out: Vec<FeedItem> = Vec::new();
        let mut k: usize = 0;
        assert(orig.take(0) =~= Seq::<FeedItem>::empty());
        assert(orig.skip(0) == orig);
        while k < n
            invariant
                n == orig.len(),
                k <= n,
                src@ == skip_n(orig, k),
                out@ == rel_sorted_order(greater_rel(compare), take_n(orig, k)),
                forall|a: &FeedItem, b: &FeedItem| #[trigger] compare.requires((a, b)),
                compare_deterministic(compare),
            decreases n - k,
        {
            let ghost k0 = k;
            let ghost before = src@;
            let x = src.remove(0);
            let ghost gx = x;
            let mut p: usize = 0;
            let mut found = false;
            while p < out.len() && !found
                invariant
                    p <= out@.len(),
                    x == gx,
                    !found ==> rel_pos_at(greater_rel(compare), out@, gx, 0) == rel_pos_at(
                        greater_rel(compare),
                        out@,
                        gx,
                        p,
                    ),
                    found ==> p < out@.len() && rel_pos_at(greater_rel(compare), out@, gx, 0) == p,
                    forall|a: &FeedItem, b: &FeedItem| #[trigger] compare.requires((a, b)),
                    compare_deterministic(compare),
                decreases out@.len() - p, if found { 0int } else { 1int },
            {
                let o = compare(&out[p], &x);
                match o {
                    std::cmp::Ordering::Greater => {
                        found = true;
                    },
                    _ => {
                        proof {
                            if compares_greater(compare, at_n(out@, p), gx) {
                                assert(call_ensures(compare, (&at_n(out@, p), &gx), o));
                            }
                        }
                        p += 1;
                    },
                }
            }
            out.insert(p, x);
            k += 1;
            proof {
                assert(before[0] == at_n(orig, k0));
                assert(src@ =~= skip_n(orig, k));
                assert(take_n(orig, k).drop_last() =~= take_n(orig, k0));
                assert(take_n(orig, k).last() == gx);
            }
        }
        assert(take_n(orig, n) == orig);
        proof {
            lemma_rel_sorted(greater_rel(compare), orig);
        }
        self.items = out;
        assert(self.url_index@ =~= Map::<Seq<char>, usize>::empty());
        assert(self.arxiv_id_index@ =~= Map::<Seq<char>, usize>::empty());
        self.rebuild_indices();
    }

    /// Law: after a rebuild every item is found again under its URL, and the
    /// position found carries that URL.
    pub proof fn lemma_rebuilt_store_finds_every_item(&self, i: int)
        requires
            self.wf(),
            self.url_map() == url_index_spec(self@),
            0 <= i < self@.len(),
        ensures
            self.url_map().dom().contains(self@[i].url@),
            self@[self.url_map()[self@[i].url@] as int].url@ == self@[i].url@,
    {
        lemma_url_index_spec_sound(self@);
    }
}

/// Where `x` goes among `out` when inserting newest first: before the
/// first item published strictly earlier than it (after every item of the
/// same date), at or after position `p`.
pub open spec fn newest_insert_pos_from(out: Seq<FeedItem>, x: FeedItem, p: int) -> int
    decreases out.len() - p,
{
    if p < 0 || p >= out.len() {
        out.len() as int
    } else if str_lt(out[p].published_at@, x.published_at@) {
        p
    } else {
        newest_insert_pos_from(out, x, p + 1)
    }
}

/// `s` sorted newest first by a stable insertion: the items are taken in
/// order, each placed before the first placed item published strictly
/// earlier.
pub open spec fn newest_first_order(s: Seq<FeedItem>) -> Seq<FeedItem>
    decreases s.len(),
{
    if s.len() == 0 {
        Seq::empty()
    } else {
        let out = newest_first_order(s.drop_last());
        out.insert(newest_insert_pos_from(out, s.last(), 0), s.last())
    }
}

/// No item is published later than an item before it.
pub open spec fn sorted_newest_first(s: Seq<FeedItem>) -> bool {
    forall|i: int, j: int|
        0 <= i < j < s.len() ==> !str_lt(#[trigger] s[i].published_at@, #[trigger] s[j].published_at@)
}

proof fn lemma_insert_pos_facts(out: Seq<FeedItem>, x: FeedItem, p: int)
    requires
        0 <= p <= out.len(),
        forall|k: int| 0 <= k < p ==> !str_lt(#[trigger] out[k].published_at@, x.published_at@),
    ensures
        p <= newest_insert_pos_from(out, x, p) <= out.len(),
        forall|k: int|
            0 <= k < newest_insert_pos_from(out, x, p) ==> !str_lt(
                #[trigger] out[k].published_at@,
                x.published_at@,
            ),
        newest_insert_pos_from(out, x, p) < out.len() ==> str_lt(
            out[newest_insert_pos_from(out, x, p)].published_at@,
            x.published_at@,
        ),
    decreases out.len() - p,
{
    if p < out.len() && !str_lt(out[p].published_at@, x.published_at@) {
        lemma_insert_pos_facts(out, x, p + 1);
    }
}

proof fn lemma_newest_first_sorted(s: Seq<FeedItem>)
    ensures
        sorted_newest_first(newest_first_order(s)),
        newest_first_order(s).to_multiset() == s.to_multiset(),
        newest_first_order(s).len() == s.len(),
    decreases s.len(),
{
    if s.len() == 0 {
        assert(s =~= Seq::<FeedItem>::empty());
    } else {
        let out = newest_first_order(s.drop_last());
        lemma_newest_first_sorted(s.drop_last());
        let x = s.last();
        lemma_insert_pos_facts(out, x, 0);
        let p = newest_insert_pos_from(out, x, 0);
        let r = out.insert(p, x);
        assert forall|i: int, j: int| 0 <= i < j < r.len() implies !str_lt(
            #[trigger] r[i].published_at@,
            #[trigger] r[j].published_at@,
        ) by {
            if j < p {
                assert(r[i] == out[i] && r[j] == out[j]);
                assert(!str_lt(out[i].published_at@, out[j].published_at@));
            } else if j == p {
                assert(r[i] == out[i] && r[j] == x);
                assert(!str_lt(out[i].published_at@, x.published_at@));
            } else if i < p {
                assert(r[i] == out[i] && r[j] == out[j - 1]);
                assert(!str_lt(out[i].published_at@, out[j - 1].published_at@));
            } else if i == p {
                assert(r[i] == x && r[j] == out[j - 1]);
                assert(str_lt(out[p].published_at@, x.published_at@));
                if str_lt(x.published_at@, out[j - 1].published_at@) {
                    lemma_str_lt_transitive(
                        out[p].published_at@,
                        x.published_at@,
                        out[j - 1].published_at@,
                    );
                    if j - 1 == p {
                        lemma_str_lt_irreflexive(out[p].published_at@);
                    } else {
                        assert(!str_lt(out[p].published_at@, out[j - 1].published_at@));
                    }
                }
            } else {
                assert(r[i] == out[i - 1] && r[j] == out[j - 1]);
                assert(!str_lt(out[i - 1].published_at@, out[j - 1].published_at@));
            }
        }
        vstd::seq_lib::to_multiset_insert(out, p, x);
        vstd::seq_lib::to_multiset_build(s.drop_last(), x);
        assert(s.drop_last().push(x) =~= s);
    }
}

/// `items` sorted newest first (see [`newest_first_order`]).
pub fn sort_items_newest_first(items: Vec<FeedItem>) -> (out: Vec<FeedItem>)
    ensures
        out@ == newest_first_order(items@),
        sorted_newest_first(out@),
        out@.to_multiset() == items@.to_multiset(),
        out@.len() == items@.len(),
{
    let mut src = items;
    let ghost orig = src@;
    let n = src.len();
    let mut out: Vec<FeedItem> = Vec::new();
    let mut k: usize = 0;
    assert(orig.take(0) =~= Seq::<FeedItem>::empty());
    assert(orig.skip(0) == orig);
    while k < n
        invariant
            n == orig.len(),
            k <= n,
            src@ == skip_n(orig, k),
            out@ == newest_first_order(take_n(orig, k)),
        decreases n - k,
    {
        let ghost k0 = k;
        let ghost before = src@;
        let x = src.remove(0);
        let ghost gx = x;
        let mut p: usize = 0;
        while p < out.len() && !str_less(out[p].published_at.as_str(), x.published_at.as_str())
            invariant
                p <= out@.len(),
                newest_insert_pos_from(out@, gx, 0) == newest_insert_pos_from(out@, gx, p as int),
                x == gx,
            decreases out@.len() - p,
        {
            p += 1;
        }
        out.insert(p, x);
        k += 1;
        proof {
            assert(before[0] == at_n(orig, k0));
            assert(src@ =~= skip_n(orig, k));
            assert(take_n(orig, k) =~= take_n(orig, k0).push(gx));
            assert(take_n(orig, k).drop_last() =~= take_n(orig, k0));
        }
    }
    assert(take_n(orig, n) == orig);
    proof {
        lemma_newest_first_sorted(orig);
    }
    out
}

impl ItemStore {
    /// Sort the items newest first (see [`newest_first_order`]: a stable
    /// sort by publication date, descending), then rebuild both indices for
    /// the new positions.
    pub fn sort_newest_first(&mut self)
        requires
            old(self).wf(),
        ensures
            final(self).wf(),
            final(self)@ == newest_first_order(old(self)@),
            sorted_newest_first(final(self)@),
            final(self)@.to_multiset() == old(self)@.to_multiset(),
            final(self).url_map() == url_index_spec(final(self)@),
            final(self).arxiv_map() == arxiv_index_spec(final(self)@),
    {
        self.url_index.clear();
        self.arxiv_id_index.clear();
        let mut src: Vec<FeedItem> = Vec::new();
        std::mem::swap(&mut src, &mut self.items);
        self.items = sort_items_newest_first(src);
        assert(self.items@.len() == self.items.len());
        assert(self.url_index@ =~= Map::<Seq<char>, usize>::empty());
        assert(self.arxiv_id_index@ =~= Map::<Seq<char>, usize>::empty());
        self.rebuild_indices();
    }
}

impl Default for ItemStore {
    fn default() -> (s: Self)
        ensures
            s.wf(),
            s@ == Seq::<FeedItem>::empty(),
            s.url_map() == Map::<Seq<char>, usize>::empty(),
            s.arxiv_map() == Map::<Seq<char>, usize>::empty(),
    {
        ItemStore::new()
    }
}

/// Law: rebuilding the indices is idempotent — two stores holding the same
/// items, both freshly rebuilt, have the same indices.
pub proof fn lemma_rebuild_idempotent(a: ItemStore, b: ItemStore)
    requires
        a@ == b@,
        a.url_map() == url_index_spec(a@),
        a.arxiv_map() == arxiv_index_spec(a@),
        b.url_map() == url_index_spec(b@),
        b.arxiv_map() == arxiv_index_spec(b@),
    ensures
        a.url_map() == b.url_map(),
        a.arxiv_map() == b.arxiv_map(),
{
}

/// Each URL is indexed exactly when some item has it, at the largest
/// such position; each arXiv id exactly when some item's URL carries it,
/// at the largest such position.
pub open spec fn indices_at_last_occurrence(
    items: Seq<FeedItem>,
    urls: Map<Seq<char>, usize>,
    aids: Map<Seq<char>, usize>,
) -> bool {
    &&& forall|u: Seq<char>| #[trigger]
        urls.dom().contains(u) <==> exists|i: int| 0 <= i < items.len() && (#[trigger] items[i]).url@ == u
    &&& forall|u: Seq<char>|
        #[trigger] urls.dom().contains(u) ==> urls[u] < items.len() && items[urls[u] as int].url@ == u
            && forall|i: int| urls[u] < i < items.len() ==> (#[trigger] items[i]).url@ != u
    &&& forall|a: Seq<char>| #[trigger]
        aids.dom().contains(a) <==> exists|i: int|
            0 <= i < items.len() && arxiv_id_spec((#[trigger] items[i]).url@) == Some(a)
    &&& forall|a: Seq<char>|
        #[trigger] aids.dom().contains(a) ==> aids[a] < items.len() && arxiv_id_spec(
            items[aids[a] as int].url@,
        ) == Some(a) && forall|i: int|
            aids[a] < i < items.len() ==> arxiv_id_spec((#[trigger] items[i]).url@) != Some(a)
}

/// Law: the indices a rebuild produces point at the last item carrying a
/// key: a URL is indexed exactly when some item has it, and then at the
/// largest such position, which has that URL; likewise an arXiv id is
/// indexed exactly when some item's URL carries it, at the largest such
/// position.
#[verifier::rlimit(40)]
pub proof fn lemma_index_is_last_occurrence(items: Seq<FeedItem>)
    requires
        items.len() <= usize::MAX,
    ensures
        forall|u: Seq<char>| #[trigger]
            url_index_spec(items).dom().contains(u) <==> exists|i: int|
                0 <= i < items.len() && (#[trigger] items[i]).url@ == u,
        forall|u: Seq<char>, i: int|
            url_index_spec(items).dom().contains(u) && 0 <= i < items.len() && (#[trigger] items[i]).url@
                == u ==> i <= #[trigger] url_index_spec(items)[u] < items.len()
                && items[url_index_spec(items)[u] as int].url@ == u,
        forall|a: Seq<char>| #[trigger]
            arxiv_index_spec(items).dom().contains(a) <==> exists|i: int|
                0 <= i < items.len() && arxiv_id_spec((#[trigger] items[i]).url@) == Some(a),
        forall|a: Seq<char>, i: int|
            arxiv_index_spec(items).dom().contains(a) && 0 <= i < items.len() && arxiv_id_spec(
                (#[trigger] items[i]).url@,
            ) == Some(a) ==> i <= #[trigger] arxiv_index_spec(items)[a] < items.len()
                && arxiv_id_spec(items[arxiv_index_spec(items)[a] as int].url@) == Some(a),
    decreases items.len(),
{
    lemma_url_index_spec_sound(items);
    lemma_arxiv_index_spec_sound(items);
    if items.len() > 0 {
        let p = items.drop_last();
        let n = items.len() - 1;
        lemma_index_is_last_occurrence(p);
        assert forall|u: Seq<char>| #[trigger]
            url_index_spec(items).dom().contains(u) <==> exists|i: int|
                0 <= i < items.len() && (#[trigger] items[i]).url@ == u by {
            if url_index_spec(items).dom().contains(u) {
                if u == items[n].url@ {
                } else {
                    assert(url_index_spec(p).dom().contains(u));
                    let j = choose|j: int| 0 <= j < p.len() && (#[trigger] p[j]).url@ == u;
                    assert(items[j] == p[j]);
                }
            }
            if exists|i: int| 0 <= i < items.len() && (#[trigger] items[i]).url@ == u {
                let i = choose|i: int| 0 <= i < items.len() && (#[trigger] items[i]).url@ == u;
                if i < n {
                    assert(p[i] == items[i]);
                }
            }
        }
        assert forall|u: Seq<char>, i: int|
            url_index_spec(items).dom().contains(u) && 0 <= i < items.len() && (#[trigger] items[i]).url@
                == u implies i <= #[trigger] url_index_spec(items)[u] < items.len()
                && items[url_index_spec(items)[u] as int].url@ == u by {
            if u != items[n].url@ {
                assert(i < n);
                assert(p[i] == items[i]);
                assert(url_index_spec(p).dom().contains(u));
            }
        }
        assert forall|a: Seq<char>| #[trigger]
            arxiv_index_spec(items).dom().contains(a) <==> exists|i: int|
                0 <= i < items.len() && arxiv_id_spec((#[trigger] items[i]).url@) == Some(a) by {
            if arxiv_index_spec(items).dom().contains(a) {
                if arxiv_id_spec(items[n].url@) == Some(a) {
                } else {
                    assert(arxiv_index_spec(p).dom().contains(a));
                    let j = choose|j: int| 0 <= j < p.len() && arxiv_id_spec((#[trigger] p[j]).url@) == Some(a);
                    assert(items[j] == p[j]);
                }
            }
            if exists|i: int| 0 <= i < items.len() && arxiv_id_spec((#[trigger] items[i]).url@) == Some(a) {
                let i = choose|i: int| 0 <= i < items.len() && arxiv_id_spec((#[trigger] items[i]).url@) == Some(a);
                if i < n {
                    assert(p[i] == items[i]);
                }
            }
        }
        assert forall|a: Seq<char>, i: int|
            arxiv_index_spec(items).dom().contains(a) && 0 <= i < items.len() && arxiv_id_spec(
                (#[trigger] items[i]).url@,
            ) == Some(a) implies i <= #[trigger] arxiv_index_spec(items)[a] < items.len()
                && arxiv_id_spec(items[arxiv_index_spec(items)[a] as int].url@) == Some(a) by {
            if arxiv_id_spec(items[n].url@) != Some(a) {
                assert(i < n);
                assert(p[i] == items[i]);
                assert(arxiv_index_spec(p).dom().contains(a));
            }
        }
    }
}

/// Law: after a push, the pushed item's URL is found at the position the
/// push returned (what a lookup reads back of a write).
pub proof fn lemma_pushed_url_is_found(before: ItemStore, after: ItemStore, item: FeedItem, idx: usize)
    requires
        before.wf(),
        after.wf(),
        idx == before@.len(),
        after@ == before@.push(item),
        after.url_map() == before.url_map().insert(item.url@, idx),
    ensures
        after.url_map().dom().contains(item.url@),
        after.url_map()[item.url@] == idx,
        after@[idx as int] == item,
{
}

/// Law: replacing one item moves no other item.
pub proof fn lemma_replace_keeps_other_positions(
    before: ItemStore,
    after: ItemStore,
    idx: usize,
    item: FeedItem,
    k: int,
)
    requires
        idx < before@.len(),
        after@ == before@.update(idx as int, item),
        0 <= k < before@.len(),
        k != idx,
    ensures
        after@.len() == before@.len(),
        after@[k] == before@[k],
        after@[idx as int] == item,
{
}

/// `compare` answers `Greater` for the pair `(a, b)`.
pub open spec fn compares_greater<F: Fn(&FeedItem, &FeedItem) -> std::cmp::Ordering>(
    compare: F,
    a: FeedItem,
    b: FeedItem,
) -> bool {
    call_ensures(compare, (&a, &b), std::cmp::Ordering::Greater)
}

/// The "compares greater" relation of `compare`.
pub open spec fn greater_rel<F: Fn(&FeedItem, &FeedItem) -> std::cmp::Ordering>(
    compare: F,
) -> spec_fn(FeedItem, FeedItem) -> bool {
    |a: FeedItem, b: FeedItem| compares_greater(compare, a, b)
}

/// `compare` gives one answer per pair.
pub open spec fn compare_deterministic<F: Fn(&FeedItem, &FeedItem) -> std::cmp::Ordering>(
    compare: F,
) -> bool {
    forall|a: &FeedItem, b: &FeedItem, o1: std::cmp::Ordering, o2: std::cmp::Ordering|
        #[trigger] call_ensures(compare, (a, b), o1) && #[trigger] call_ensures(compare, (a, b), o2)
            ==> o1 == o2
}

/// `gt` is a strict order: irreflexive and transitive.
pub open spec fn strict_order(gt: spec_fn(FeedItem, FeedItem) -> bool) -> bool {
    &&& forall|a: FeedItem| !#[trigger] gt(a, a)
    &&& forall|a: FeedItem, b: FeedItem, c: FeedItem|
        #[trigger] gt(a, b) && #[trigger] gt(b, c) ==> gt(a, c)
}

/// Where the stable insertion places `x` in `out`, scanning from `p`:
/// before the first item greater than `x`.
pub open spec fn rel_pos_from(
    gt: spec_fn(FeedItem, FeedItem) -> bool,
    out: Seq<FeedItem>,
    x: FeedItem,
    p: int,
) -> int
    decreases out.len() - p,
{
    if p < 0 || p >= out.len() {
        out.len() as int
    } else if gt(out[p], x) {
        p
    } else {
        rel_pos_from(gt, out, x, p + 1)
    }
}

/// [`rel_pos_from`] from position `p`.
pub open spec fn rel_pos_at(gt: spec_fn(FeedItem, FeedItem) -> bool, out: Seq<FeedItem>, x: FeedItem, p: usize) -> int {
    rel_pos_from(gt, out, x, p as int)
}

/// `s` sorted by `gt` with a stable insertion sort: the items are taken in
/// order, each placed before the first placed item greater than it, so
/// items neither greater than the other keep their order.
pub open spec fn rel_sorted_order(gt: spec_fn(FeedItem, FeedItem) -> bool, s: Seq<FeedItem>) -> Seq<FeedItem>
    decreases s.len(),
{
    if s.len() == 0 {
        Seq::empty()
    } else {
        let out = rel_sorted_order(gt, s.drop_last());
        out.insert(rel_pos_from(gt, out, s.last(), 0), s.last())
    }
}

/// No item is greater than an item after it.
pub open spec fn sorted_by_rel(gt: spec_fn(FeedItem, FeedItem) -> bool, s: Seq<FeedItem>) -> bool {
    forall|i: int, j: int| 0 <= i < j < s.len() ==> !gt(#[trigger] s[i], #[trigger] s[j])
}

proof fn lemma_rel_pos_facts(gt: spec_fn(FeedItem, FeedItem) -> bool, out: Seq<FeedItem>, x: FeedItem, p: int)
    requires
        0 <= p <= out.len(),
        forall|k: int| 0 <= k < p ==> !gt(#[trigger] out[k], x),
    ensures
        p <= rel_pos_from(gt, out, x, p) <= out.len(),
        forall|k: int| 0 <= k < rel_pos_from(gt, out, x, p) ==> !gt(#[trigger] out[k], x),
        rel_pos_from(gt, out, x, p) < out.len() ==> gt(out[rel_pos_from(gt, out, x, p)], x),
    decreases out.len() - p,
{
    if p < out.len() && !gt(out[p], x) {
        lemma_rel_pos_facts(gt, out, x, p + 1);
    }
}

/// Law: the stable insertion by a strict order yields the same items, in
/// order.
pub proof fn lemma_rel_sorted(gt: spec_fn(FeedItem, FeedItem) -> bool, s: Seq<FeedItem>)
    requires
        strict_order(gt),
    ensures
        sorted_by_rel(gt, rel_sorted_order(gt, s)),
        rel_sorted_order(gt, s).to_multiset() == s.to_multiset(),
        rel_sorted_order(gt, s).len() == s.len(),
    decreases s.len(),
{
    if s.len() == 0 {
        assert(s =~= Seq::<FeedItem>::empty());
    } else {
        let out = rel_sorted_order(gt, s.drop_last());
        lemma_rel_sorted(gt, s.drop_last());
        let x = s.last();
        lemma_rel_pos_facts(gt, out, x, 0);
        let p = rel_pos_from(gt, out, x, 0);
        let r = out.insert(p, x);
        assert forall|i: int, j: int| 0 <= i < j < r.len() implies !gt(#[trigger] r[i], #[trigger] r[j]) by {
            if j < p {
                assert(r[i] == out[i] && r[j] == out[j]);
            } else if j == p {
                assert(r[i] == out[i] && r[j] == x);
            } else if i < p {
                assert(r[i] == out[i] && r[j] == out[j - 1]);
            } else if i == p {
                assert(r[i] == x && r[j] == out[j - 1]);
                assert(gt(out[p], x));
                if gt(x, out[j - 1]) {
                    assert(gt(out[p], out[j - 1]));
                    if j - 1 > p {
                        assert(!gt(out[p], out[j - 1]));
                    } else {
                        assert(!gt(out[p], out[p]));
                    }
                }
            } else {
                assert(r[i] == out[i - 1] && r[j] == out[j - 1]);
            }
        }
        vstd::seq_lib::to_multiset_insert(out, p, x);
        vstd::seq_lib::to_multiset_build(s.drop_last(), x);
        assert(s.drop_last().push(x) =~= s);
    }
}

} // verus!
